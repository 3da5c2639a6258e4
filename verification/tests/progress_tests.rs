use playcore::progress::{filled_cells, format_time, percent_of, render_bar, render_progress};

#[test]
fn format_time_pads_to_two_digits() {
    assert_eq!(format_time(0), "00:00:00");
    assert_eq!(format_time(3), "00:00:03");
    assert_eq!(format_time(123), "00:02:03");
    assert_eq!(format_time(3661), "01:01:01");
    assert_eq!(format_time(86_399), "23:59:59");
}

#[test]
fn format_time_hours_can_grow() {
    // 100 hours: the hour field takes as many digits as it needs.
    assert_eq!(format_time(360_000), "100:00:00");
}

#[test]
fn filled_cells_scales_and_clamps() {
    assert_eq!(filled_cells(0, 10_000), 0);
    assert_eq!(filled_cells(5000, 10_000), 15);
    assert_eq!(filled_cells(10_000, 10_000), 30);
    // More than the total: a full bar, never wider.
    assert_eq!(filled_cells(25_000, 10_000), 30);
    // A zero total counts as complete.
    assert_eq!(filled_cells(1234, 0), 30);
}

#[test]
fn percent_clamps_to_one_hundred() {
    assert_eq!(percent_of(0, 200), 0);
    assert_eq!(percent_of(50, 200), 25);
    assert_eq!(percent_of(200, 200), 100);
    assert_eq!(percent_of(300, 200), 100);
}

#[test]
fn render_bar_shapes() {
    assert_eq!(render_bar(0), "[------------------------------]");
    assert_eq!(render_bar(15), "[###############---------------]");
    assert_eq!(render_bar(30), "[##############################]");
}

#[test]
fn render_progress_composes_line() {
    let line = render_progress(5000, 10_000, "play");
    assert_eq!(
        line,
        "[###############---------------] 00:00:05 / 00:00:10 play"
    );
    let line = render_progress(0, 0, "");
    assert_eq!(
        line,
        "[##############################] 00:00:00 / 00:00:00 "
    );
}
