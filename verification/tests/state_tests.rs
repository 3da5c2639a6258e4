use playcore::source::{DecodedSource, LoadError};
use playcore::state::{Command, PlaybackState, SinkAction};

fn ten_second_source() -> DecodedSource {
    // 10 s at 44100 Hz, 2 channels: 882_000 interleaved samples.
    let samples: Vec<i16> = vec![0; 882_000];
    DecodedSource::from_parts(44100, 2, samples).unwrap()
}

#[test]
fn scenario_ten_second_track() {
    let src = ten_second_source();
    assert_eq!(src.total_duration_millis(), 10_000);

    let mut state = PlaybackState::new();
    assert!(!state.playing && !state.paused && !state.stopped);

    // Toggle play: starts from the beginning.
    let act = state.toggle(0);
    assert_eq!(
        act,
        SinkAction::Restart { start_sample: 0, autoplay: true }
    );
    assert!(state.playing && !state.paused);

    // Elapsed grows linearly with wall time.
    assert_eq!(state.elapsed_millis(500), 500);
    assert_eq!(state.elapsed_millis(2000), 2000);

    // After 2.0 s, toggle pause: the offset banks 2.0 s.
    let act = state.toggle(2000);
    assert_eq!(act, SinkAction::Pause);
    assert!(state.paused);
    assert_eq!(state.paused_offset_millis, 2000);
    assert_eq!(state.elapsed_millis(9999), 2000);

    // Seek forward 5.0 s while paused: position 7.0 s, still paused.
    let act = state.seek(2500, 5000, true, &src);
    assert_eq!(
        act,
        SinkAction::Restart { start_sample: 617_400, autoplay: false }
    );
    assert!(state.paused);
    assert_eq!(state.paused_offset_millis, 7000);

    // Toggle resume: elapsed continues from 7.0 s.
    let act = state.toggle(3000);
    assert_eq!(act, SinkAction::Play);
    assert!(!state.paused && state.playing);
    assert_eq!(state.elapsed_millis(4000), 8000);

    // Past the end the display clamps to the total duration.
    assert_eq!(state.elapsed_display(13_500, 10_000), 10_000);

    // A further forward seek clamps to the end: the new session starts at
    // the very end of the buffer and drains immediately.
    let act = state.seek(6000, 5000, true, &src);
    assert_eq!(
        act,
        SinkAction::Restart { start_sample: 882_000, autoplay: true }
    );
    assert_eq!(state.paused_offset_millis, 10_000);
}

#[test]
fn pause_twice_counts_once() {
    let src = ten_second_source();
    let mut state = PlaybackState::new();
    state.toggle(0);
    let act = state.pause(2000);
    assert_eq!(act, SinkAction::Pause);
    assert_eq!(state.paused_offset_millis, 2000);
    let before = state;
    // A second pause, much later, without an intervening resume: no effect.
    let act = state.pause(5000);
    assert_eq!(act, SinkAction::Stay);
    assert_eq!(state, before);
    assert_eq!(state.paused_offset_millis, 2000);
    let _ = src;
}

#[test]
fn seek_backward_clamps_to_zero() {
    let src = ten_second_source();
    let mut state = PlaybackState::new();
    state.toggle(1000);
    // Elapsed is 3.0 s at now = 4000; seeking back 5.0 s lands on 0, never
    // on a negative position.
    assert_eq!(state.elapsed_millis(4000), 3000);
    let act = state.seek(4000, 5000, false, &src);
    assert_eq!(state.paused_offset_millis, 0);
    assert_eq!(
        act,
        SinkAction::Restart { start_sample: 0, autoplay: true }
    );
}

#[test]
fn seek_forward_clamps_to_total() {
    let src = ten_second_source();
    let mut state = PlaybackState::new();
    state.toggle(0);
    // Elapsed is total - 2 s; seeking +5 s clamps to exactly the total and
    // the rebuilt session holds nothing: the next drain poll finds it done.
    let act = state.seek(8000, 5000, true, &src);
    assert_eq!(state.paused_offset_millis, 10_000);
    assert_eq!(
        act,
        SinkAction::Restart { start_sample: 882_000, autoplay: true }
    );
}

#[test]
fn seek_round_trip_restores_elapsed() {
    let src = ten_second_source();

    // While paused the round trip is exact.
    let mut state = PlaybackState::new();
    state.toggle(0);
    state.pause(2000);
    state.seek(2500, 1000, true, &src);
    assert_eq!(state.paused_offset_millis, 3000);
    state.seek(2600, 1000, false, &src);
    assert_eq!(state.paused_offset_millis, 2000);
    assert!(state.paused);

    // While running, with both seeks at the same instant, it is exact too.
    let mut state = PlaybackState::new();
    state.toggle(1000);
    assert_eq!(state.elapsed_millis(5000), 4000);
    state.seek(5000, 1000, true, &src);
    state.seek(5000, 1000, false, &src);
    assert_eq!(state.elapsed_millis(5000), 4000);
}

#[test]
fn pause_transition_never_torn() {
    // A reader takes whole-state snapshots; the transition is one value
    // swap. Interleave a thousand reads with the transition and check that
    // no read ever sees the paused flag together with a stale offset.
    let src = ten_second_source();
    let mut state = PlaybackState::new();
    state.toggle(0);
    let before = state;
    state.pause(2000);
    let after = state;
    for i in 0..1000 {
        let snapshot = if i % 2 == 0 { before } else { after };
        if snapshot.paused {
            assert_eq!(snapshot.paused_offset_millis, 2000);
            assert_eq!(snapshot.anchor_millis, None);
        } else {
            assert_eq!(snapshot.paused_offset_millis, 0);
            assert_eq!(snapshot.anchor_millis, Some(0));
        }
        // Both sides agree on the elapsed time at the transition instant.
        assert_eq!(snapshot.elapsed_millis(2000), 2000);
    }
    let _ = src;
}

#[test]
fn elapsed_display_stays_in_range() {
    let mut state = PlaybackState::new();
    assert_eq!(state.elapsed_display(12_345, 10_000), 0);
    state.toggle(0);
    assert_eq!(state.elapsed_display(4000, 10_000), 4000);
    // Running far past the end: clamped to the total.
    assert_eq!(state.elapsed_display(50_000, 10_000), 10_000);
    // A zero-length track never yields a positive display.
    assert_eq!(state.elapsed_display(50_000, 0), 0);
}

#[test]
fn stop_resets_position() {
    let src = ten_second_source();
    let mut state = PlaybackState::new();
    state.toggle(0);
    let act = state.dispatch(Command::Stop, 4000, &src);
    assert_eq!(act, SinkAction::Halt);
    assert!(state.stopped && !state.playing && !state.paused);
    assert_eq!(state.paused_offset_millis, 0);
    assert_eq!(state.elapsed_millis(9000), 0);
    // Toggling after a stop starts over from the beginning.
    let act = state.dispatch(Command::Toggle, 9000, &src);
    assert_eq!(
        act,
        SinkAction::Restart { start_sample: 0, autoplay: true }
    );
    assert_eq!(state.elapsed_millis(9500), 500);
}

#[test]
fn dispatch_seeks_by_five_seconds() {
    let src = ten_second_source();
    let mut state = PlaybackState::new();
    state.dispatch(Command::Toggle, 0, &src);
    let act = state.dispatch(Command::SeekForward, 1000, &src);
    assert_eq!(state.paused_offset_millis, 6000);
    assert_eq!(
        act,
        SinkAction::Restart { start_sample: 529_200, autoplay: true }
    );
    let act = state.dispatch(Command::SeekBackward, 1000, &src);
    assert_eq!(state.paused_offset_millis, 1000);
    assert_eq!(
        act,
        SinkAction::Restart { start_sample: 88_200, autoplay: true }
    );
}

#[test]
fn status_label_follows_state() {
    let mut state = PlaybackState::new();
    assert_eq!(state.status_label(), "");
    state.toggle(0);
    assert_eq!(state.status_label(), "play");
    state.pause(1000);
    assert_eq!(state.status_label(), "pause");
    state.resume(2000);
    assert_eq!(state.status_label(), "play");
    state.stop();
    assert_eq!(state.status_label(), "");
}

#[test]
fn natural_termination_only_while_running() {
    let mut state = PlaybackState::new();
    // A drained output ends nothing before the first play.
    assert!(!state.session_finished(true));
    state.toggle(0);
    assert!(!state.session_finished(false));
    assert!(state.session_finished(true));
    state.pause(1000);
    assert!(!state.session_finished(true));
    state.resume(2000);
    assert!(state.session_finished(true));
    state.stop();
    assert!(!state.session_finished(true));
}

#[test]
fn from_parts_validates() {
    assert!(matches!(
        DecodedSource::from_parts(44100, 2, Vec::new()),
        Err(LoadError::EmptyAudio)
    ));
    assert!(matches!(
        DecodedSource::from_parts(0, 2, vec![1, 2]),
        Err(LoadError::InvalidRate)
    ));
    assert!(matches!(
        DecodedSource::from_parts(-3, 2, vec![1, 2]),
        Err(LoadError::InvalidRate)
    ));
    assert!(matches!(
        DecodedSource::from_parts(44100, 0, vec![1, 2]),
        Err(LoadError::InvalidChannels)
    ));
    let src = DecodedSource::from_parts(8000, 1, vec![1, 2, 3]).unwrap();
    assert_eq!(src.sample_rate, 8000);
    assert_eq!(src.channels, 1);
    assert_eq!(src.samples, vec![1, 2, 3]);
}

#[test]
fn duration_and_index_arithmetic() {
    // 441 samples at 44100 Hz mono: exactly 10 ms.
    let src = DecodedSource::from_parts(44100, 1, vec![0; 441]).unwrap();
    assert_eq!(src.total_duration_millis(), 10);
    assert_eq!(src.start_sample_for(0), 0);
    assert_eq!(src.start_sample_for(10), 441);
    // Beyond the end the index clamps to the buffer length.
    assert_eq!(src.start_sample_for(50_000), 441);

    // A truncating case: 1000 samples at 3 Hz mono is 333_333 ms.
    let src = DecodedSource::from_parts(3, 1, vec![0; 1000]).unwrap();
    assert_eq!(src.total_duration_millis(), 333_333);
}

#[test]
fn tail_samples_copies_suffix() {
    let src = DecodedSource::from_parts(8000, 1, vec![10, 20, 30, 40, 50]).unwrap();
    assert_eq!(src.tail_samples(0), vec![10, 20, 30, 40, 50]);
    assert_eq!(src.tail_samples(3), vec![40, 50]);
    assert_eq!(src.tail_samples(5), Vec::<i16>::new());
}

#[test]
fn load_error_messages() {
    assert_eq!(
        LoadError::EmptyAudio.describe(),
        "no decodable audio in the file"
    );
    assert_eq!(
        LoadError::TooLong.describe(),
        "the decoded audio is too long to play"
    );
}
