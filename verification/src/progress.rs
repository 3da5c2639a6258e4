//! Textual progress rendering: `HH:MM:SS` time formatting, the fixed-width
//! bar, and the full progress line the reporter redraws, together with the
//! cell and percent arithmetic a download indicator uses. Everything here is
//! pure computation on integers and strings; printing stays with the caller.
use vstd::prelude::*;
use vstd::string::StringExecFns;

verus! {

/// Width of the progress bar in cells.
pub const BAR_WIDTH: u64 = 30;

/// The decimal digit character for `d` in `0..=9`.
pub open spec fn digit_char(d: int) -> char {
    if d == 0 {
        '0'
    } else if d == 1 {
        '1'
    } else if d == 2 {
        '2'
    } else if d == 3 {
        '3'
    } else if d == 4 {
        '4'
    } else if d == 5 {
        '5'
    } else if d == 6 {
        '6'
    } else if d == 7 {
        '7'
    } else if d == 8 {
        '8'
    } else {
        '9'
    }
}

/// Decimal rendering of `n` without leading zeros (a single `0` for zero).
pub open spec fn dec_digits(n: int) -> Seq<char>
    decreases n,
{
    if n < 10 {
        seq![digit_char(n)]
    } else {
        dec_digits(n / 10).push(digit_char(n % 10))
    }
}

/// Decimal rendering padded with a leading zero to at least two digits,
/// as `{:02}` formatting prints it.
pub open spec fn pad2(n: int) -> Seq<char> {
    if n < 10 {
        seq!['0'] + dec_digits(n)
    } else {
        dec_digits(n)
    }
}

/// `HH:MM:SS` for a duration in whole seconds; hours may take more than two
/// digits.
pub open spec fn hms_chars(secs: int) -> Seq<char> {
    pad2(secs / 3600) + seq![':'] + pad2((secs % 3600) / 60) + seq![':'] + pad2(secs % 60)
}

/// How many of the `BAR_WIDTH` cells are filled: `done/total` scaled and
/// clamped, a full bar when `total` is zero.
pub open spec fn filled_spec(done: u64, total: u64) -> int {
    if total == 0 {
        BAR_WIDTH as int
    } else if done > total {
        BAR_WIDTH as int
    } else {
        (done * BAR_WIDTH) / (total as int)
    }
}

/// The bar: `[`, the filled cells, the empty cells, `]`.
pub open spec fn bar_chars(filled: int) -> Seq<char> {
    seq!['['] + Seq::new(filled as nat, |i: int| '#') + Seq::new(
        (BAR_WIDTH - filled) as nat,
        |i: int| '-',
    ) + seq![']']
}

/// The whole progress line: bar, elapsed over total as `HH:MM:SS`, status.
pub open spec fn progress_line_chars(
    elapsed_millis: u64,
    total_millis: u64,
    status: Seq<char>,
) -> Seq<char> {
    bar_chars(filled_spec(elapsed_millis, total_millis)) + " "@ + hms_chars(
        elapsed_millis as int / 1000,
    ) + " / "@ + hms_chars(total_millis as int / 1000) + " "@ + status
}

/// The one-character string for digit `d`.
fn digit_str(d: u64) -> (r: &'static str)
    requires
        d < 10,
    ensures
        r@ == seq![digit_char(d as int)],
{
    proof {
        reveal_strlit("0");
        reveal_strlit("1");
        reveal_strlit("2");
        reveal_strlit("3");
        reveal_strlit("4");
        reveal_strlit("5");
        reveal_strlit("6");
        reveal_strlit("7");
        reveal_strlit("8");
        reveal_strlit("9");
    }
    match d {
        0 => "0",
        1 => "1",
        2 => "2",
        3 => "3",
        4 => "4",
        5 => "5",
        6 => "6",
        7 => "7",
        8 => "8",
        _ => "9",
    }
}

/// Append the decimal rendering of `n`.
pub fn push_dec(out: &mut String, n: u64)
    ensures
        final(out)@ == old(out)@ + dec_digits(n as int),
    decreases n,
{
    if n < 10 {
        let d = digit_str(n);
        out.append(d);
    } else {
        push_dec(out, n / 10);
        let d = digit_str(n % 10);
        out.append(d);
        proof {
            assert(out@ =~= old(out)@ + dec_digits(n as int));
        }
    }
}

/// Append the decimal rendering of `n`, zero-padded to two digits.
fn push_pad2(out: &mut String, n: u64)
    ensures
        final(out)@ == old(out)@ + pad2(n as int),
{
    if n < 10 {
        proof {
            reveal_strlit("0");
        }
        out.append("0");
        push_dec(out, n);
        proof {
            assert(out@ =~= old(out)@ + pad2(n as int));
        }
    } else {
        push_dec(out, n);
    }
}

/// `HH:MM:SS` for a duration in whole seconds.
pub fn format_time(seconds: u64) -> (r: String)
    ensures
        r@ == hms_chars(seconds as int),
{
    let mut out = String::new();
    push_pad2(&mut out, seconds / 3600);
    proof {
        reveal_strlit(":");
    }
    out.append(":");
    push_pad2(&mut out, (seconds % 3600) / 60);
    out.append(":");
    push_pad2(&mut out, seconds % 60);
    proof {
        assert(":"@ =~= seq![':']);
        assert(out@ =~= hms_chars(seconds as int));
    }
    out
}

/// How many bar cells are filled for `done` out of `total`. Clamped to the
/// bar width; a full bar when `total` is zero.
pub fn filled_cells(done: u64, total: u64) -> (r: u64)
    ensures
        r == filled_spec(done, total),
        r <= BAR_WIDTH,
{
    if total == 0 || done > total {
        BAR_WIDTH
    } else {
        proof {
            assert(done as int * BAR_WIDTH as int <= u64::MAX as int * BAR_WIDTH as int)
                by (nonlinear_arith)
                requires
                    done <= u64::MAX,
            ;
            lemma_scaled_ratio_bounded(done, total);
        }
        let wide: u128 = (done as u128) * (BAR_WIDTH as u128) / (total as u128);
        wide as u64
    }
}

/// The ratio `done/total` as a whole percentage, clamped to 100.
pub fn percent_of(done: u64, total: u64) -> (r: u64)
    requires
        total >= 1,
    ensures
        r == if done > total {
            100
        } else {
            (done * 100) / (total as int)
        },
        r <= 100,
{
    if done > total {
        100
    } else {
        proof {
            assert(done as int * 100 <= u64::MAX as int * 100) by (nonlinear_arith)
                requires
                    done <= u64::MAX,
            ;
            lemma_percent_bounded(done, total);
        }
        let wide: u128 = (done as u128) * 100 / (total as u128);
        wide as u64
    }
}

/// The bar for `filled` filled cells.
pub fn render_bar(filled: u64) -> (r: String)
    requires
        filled <= BAR_WIDTH,
    ensures
        r@ == bar_chars(filled as int),
{
    proof {
        reveal_strlit("[");
        reveal_strlit("]");
        reveal_strlit("#");
        reveal_strlit("-");
    }
    let mut out = String::new();
    out.append("[");
    proof {
        assert(out@ =~= seq!['['] + Seq::new(0nat, |k: int| '#'));
    }
    let mut i: u64 = 0;
    while i < filled
        invariant
            i <= filled <= BAR_WIDTH,
            out@ == seq!['['] + Seq::new(i as nat, |k: int| '#'),
            "#"@ == seq!['#'],
        decreases filled - i,
    {
        out.append("#");
        i = i + 1;
        proof {
            assert(out@ =~= seq!['['] + Seq::new(i as nat, |k: int| '#'));
        }
    }
    proof {
        assert(out@ =~= seq!['['] + Seq::new(filled as nat, |k: int| '#') + Seq::new(
            0nat,
            |k: int| '-',
        ));
    }
    let mut j: u64 = 0;
    while j < BAR_WIDTH - filled
        invariant
            filled <= BAR_WIDTH,
            j <= BAR_WIDTH - filled,
            out@ == seq!['['] + Seq::new(filled as nat, |k: int| '#') + Seq::new(
                j as nat,
                |k: int| '-',
            ),
            "-"@ == seq!['-'],
        decreases BAR_WIDTH - filled - j,
    {
        out.append("-");
        j = j + 1;
        proof {
            assert(out@ =~= seq!['['] + Seq::new(filled as nat, |k: int| '#') + Seq::new(
                j as nat,
                |k: int| '-',
            ));
        }
    }
    out.append("]");
    proof {
        assert(out@ =~= bar_chars(filled as int));
    }
    out
}

/// The full progress line the reporter redraws: bar, elapsed and total time,
/// status text.
pub fn render_progress(elapsed_millis: u64, total_millis: u64, status: &str) -> (r: String)
    ensures
        r@ == progress_line_chars(elapsed_millis, total_millis, status@),
{
    let filled = filled_cells(elapsed_millis, total_millis);
    let mut out = render_bar(filled);
    out.append(" ");
    let t_elapsed = format_time(elapsed_millis / 1000);
    out.append(t_elapsed.as_str());
    out.append(" / ");
    let t_total = format_time(total_millis / 1000);
    out.append(t_total.as_str());
    out.append(" ");
    out.append(status);
    proof {
        assert(out@ =~= progress_line_chars(elapsed_millis, total_millis, status@));
    }
    out
}

/// `done * BAR_WIDTH / total` stays within the bar when `done <= total`.
proof fn lemma_scaled_ratio_bounded(done: u64, total: u64)
    requires
        1 <= total,
        done <= total,
    ensures
        0 <= (done as int * BAR_WIDTH as int) / (total as int) <= BAR_WIDTH,
{
    assert(done as int * BAR_WIDTH as int <= total as int * BAR_WIDTH as int) by (nonlinear_arith)
        requires
            done <= total,
    ;
    vstd::arithmetic::div_mod::lemma_div_is_ordered(
        done as int * BAR_WIDTH as int,
        total as int * BAR_WIDTH as int,
        total as int,
    );
    vstd::arithmetic::div_mod::lemma_div_multiples_vanish(BAR_WIDTH as int, total as int);
    assert(total as int * BAR_WIDTH as int == total as int * BAR_WIDTH as int);
    assert((total as int * BAR_WIDTH as int) / (total as int) == BAR_WIDTH);
    assert(done as int * BAR_WIDTH as int >= 0) by (nonlinear_arith)
        requires
            done >= 0,
    ;
    vstd::arithmetic::div_mod::lemma_div_is_ordered(
        0,
        done as int * BAR_WIDTH as int,
        total as int,
    );
}

/// `done * 100 / total` stays at or below 100 when `done <= total`.
proof fn lemma_percent_bounded(done: u64, total: u64)
    requires
        1 <= total,
        done <= total,
    ensures
        0 <= (done as int * 100) / (total as int) <= 100,
{
    assert(done as int * 100 <= total as int * 100) by (nonlinear_arith)
        requires
            done <= total,
    ;
    vstd::arithmetic::div_mod::lemma_div_is_ordered(
        done as int * 100,
        total as int * 100,
        total as int,
    );
    vstd::arithmetic::div_mod::lemma_div_multiples_vanish(100, total as int);
    assert((total as int * 100) / (total as int) == 100);
    assert(done as int * 100 >= 0) by (nonlinear_arith)
        requires
            done >= 0,
    ;
    vstd::arithmetic::div_mod::lemma_div_is_ordered(0, done as int * 100, total as int);
}

} // verus!
