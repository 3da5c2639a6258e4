//! Transport state of the player: playing / paused / stopped flags, the
//! wall-clock anchor of the current run segment, and the accumulated paused
//! offset. All times are integer milliseconds. The input loop is the only
//! writer; a progress reporter reads consistent snapshots and derives the
//! elapsed time from them.
use vstd::prelude::*;
use crate::source::DecodedSource;

verus! {

/// Upper bound (exclusive) on every wall-clock reading and accumulated offset
/// in milliseconds. 2^62 ms is far beyond any session length; keeping all
/// times below it rules out overflow in the bookkeeping arithmetic.
pub const MAX_TIME_MILLIS: u64 = 0x4000_0000_0000_0000;

/// The transport state. `paused_offset_millis` is the timeline position at
/// which the current run segment began; `anchor_millis` is the wall clock at
/// that moment, present exactly while actively running.
#[derive(Clone, Copy, PartialEq, Eq, Debug)]
pub struct PlaybackState {
    pub playing: bool,
    pub paused: bool,
    pub stopped: bool,
    pub anchor_millis: Option<u64>,
    pub paused_offset_millis: u64,
}

/// What the audio output should do after a transition.
#[derive(Clone, Copy, PartialEq, Eq, Debug)]
pub enum SinkAction {
    /// Leave the output as it is.
    Stay,
    /// Let the current session produce sound again.
    Play,
    /// Suspend the current session.
    Pause,
    /// Stop and release the current session.
    Halt,
    /// Replace the session with one over `samples[start_sample..]`;
    /// start it at once when `autoplay` holds.
    Restart { start_sample: usize, autoplay: bool },
}

/// A discrete user command, as decoded from raw input by the caller.
#[derive(Clone, Copy, PartialEq, Eq, Debug)]
pub enum Command {
    Toggle,
    SeekForward,
    SeekBackward,
    Stop,
}

impl PlaybackState {
    /// Structural invariant: the flag combination is one of the four phases
    /// and the anchor is present exactly while actively running.
    pub open spec fn wf(self) -> bool {
        &&& (self.anchor_millis is Some <==> (self.playing && !self.paused && !self.stopped))
        &&& (self.paused ==> self.playing && !self.stopped)
        &&& (self.stopped ==> !self.playing && !self.paused)
        &&& self.paused_offset_millis < MAX_TIME_MILLIS
        &&& (self.anchor_millis is Some ==> self.anchor_millis->Some_0 < MAX_TIME_MILLIS)
    }

    /// The clock reading `now` is usable with this state: it is bounded, not
    /// earlier than the anchor, and the run segment it closes keeps the
    /// accumulated position below the bookkeeping bound.
    pub open spec fn clock_ok(self, now: u64) -> bool {
        &&& now < MAX_TIME_MILLIS
        &&& (self.anchor_millis is Some ==> self.anchor_millis->Some_0 <= now)
        &&& self.elapsed_raw(now) < MAX_TIME_MILLIS
    }

    /// Timeline position in milliseconds at wall clock `now`, before any
    /// clamping against the track length.
    pub open spec fn elapsed_raw(self, now: u64) -> int {
        if self.stopped {
            0
        } else if self.paused {
            self.paused_offset_millis as int
        } else if self.playing {
            self.paused_offset_millis + (now - self.anchor_millis->Some_0)
        } else {
            0
        }
    }

    /// What a progress reader displays: the raw position clamped to the
    /// track's total duration.
    pub open spec fn elapsed_display_spec(self, now: u64, total_millis: u64) -> int {
        if self.elapsed_raw(now) > total_millis {
            total_millis as int
        } else {
            self.elapsed_raw(now)
        }
    }

    /// The state of a player that has not started yet.
    pub fn new() -> (s: PlaybackState)
        ensures
            s == idle_state(),
            s.wf(),
    {
        PlaybackState {
            playing: false,
            paused: false,
            stopped: false,
            anchor_millis: None,
            paused_offset_millis: 0,
        }
    }

    /// Timeline position at `now`, not clamped.
    pub fn elapsed_millis(&self, now: u64) -> (r: u64)
        requires
            self.wf(),
            self.clock_ok(now),
        ensures
            r == self.elapsed_raw(now),
    {
        if self.stopped {
            0
        } else if self.paused {
            self.paused_offset_millis
        } else if self.playing {
            match self.anchor_millis {
                Some(a) => self.paused_offset_millis + (now - a),
                None => 0,
            }
        } else {
            0
        }
    }

    /// Timeline position at `now`, clamped into `[0, total_millis]` for
    /// display. The result never leaves that interval.
    pub fn elapsed_display(&self, now: u64, total_millis: u64) -> (r: u64)
        requires
            self.wf(),
            self.clock_ok(now),
        ensures
            r == self.elapsed_display_spec(now, total_millis),
            r <= total_millis,
    {
        let raw = self.elapsed_millis(now);
        if raw > total_millis {
            total_millis
        } else {
            raw
        }
    }

    /// Begin playing from the start of the track.
    pub fn start(&mut self, now: u64) -> (act: SinkAction)
        requires
            old(self).wf(),
            now < MAX_TIME_MILLIS,
        ensures
            *final(self) == start_spec(now),
            final(self).wf(),
            act == (SinkAction::Restart { start_sample: 0, autoplay: true }),
    {
        self.playing = true;
        self.paused = false;
        self.stopped = false;
        self.anchor_millis = Some(now);
        self.paused_offset_millis = 0;
        SinkAction::Restart { start_sample: 0, autoplay: true }
    }

    /// Suspend playback, banking the elapsed time of the closing run segment.
    /// A second pause without an intervening resume changes nothing.
    pub fn pause(&mut self, now: u64) -> (act: SinkAction)
        requires
            old(self).wf(),
            old(self).clock_ok(now),
        ensures
            *final(self) == pause_spec(*old(self), now),
            final(self).wf(),
            act == pause_action_spec(*old(self)),
            final(self).elapsed_raw(now) == old(self).elapsed_raw(now),
    {
        if self.playing && !self.paused && !self.stopped {
            let a = match self.anchor_millis {
                Some(a) => a,
                None => now,
            };
            self.paused_offset_millis = self.paused_offset_millis + (now - a);
            self.paused = true;
            self.anchor_millis = None;
            SinkAction::Pause
        } else {
            SinkAction::Stay
        }
    }

    /// Resume a paused session; the new run segment is anchored at `now`.
    /// Does nothing when not paused.
    pub fn resume(&mut self, now: u64) -> (act: SinkAction)
        requires
            old(self).wf(),
            now < MAX_TIME_MILLIS,
        ensures
            *final(self) == resume_spec(*old(self), now),
            final(self).wf(),
            act == resume_action_spec(*old(self)),
            final(self).elapsed_raw(now) == old(self).elapsed_raw(now),
    {
        if self.paused {
            self.paused = false;
            self.anchor_millis = Some(now);
            SinkAction::Play
        } else {
            SinkAction::Stay
        }
    }

    /// Stop the session and reset the position to zero.
    pub fn stop(&mut self) -> (act: SinkAction)
        requires
            old(self).wf(),
        ensures
            *final(self) == stopped_state(),
            final(self).wf(),
            act == SinkAction::Halt,
    {
        self.playing = false;
        self.paused = false;
        self.stopped = true;
        self.anchor_millis = None;
        self.paused_offset_millis = 0;
        SinkAction::Halt
    }

    /// Natural termination: the session ends of itself only while actively
    /// running, once the output reports its sample range fully consumed.
    /// A paused, stopped or never-started player keeps the session alive
    /// whatever the output says.
    pub fn session_finished(&self, drained: bool) -> (r: bool)
        ensures
            r == (self.playing && !self.paused && drained),
    {
        self.playing && !self.paused && drained
    }

    /// The status word a progress line shows for this state.
    pub open spec fn status_label_spec(self) -> Seq<char> {
        if self.paused {
            "pause"@
        } else if self.playing {
            "play"@
        } else {
            ""@
        }
    }

    /// The status word a progress line shows for this state.
    pub fn status_label(&self) -> (r: &'static str)
        ensures
            r@ == self.status_label_spec(),
    {
        if self.paused {
            "pause"
        } else if self.playing {
            "play"
        } else {
            ""
        }
    }

    /// The play/pause toggle: starts from the beginning when idle or stopped,
    /// resumes when paused, pauses when running.
    pub fn toggle(&mut self, now: u64) -> (act: SinkAction)
        requires
            old(self).wf(),
            old(self).clock_ok(now),
        ensures
            *final(self) == toggle_spec(*old(self), now),
            final(self).wf(),
            act == toggle_action_spec(*old(self)),
    {
        if !self.playing || self.stopped {
            self.start(now)
        } else if self.paused {
            self.resume(now)
        } else {
            self.pause(now)
        }
    }
}

/// How far a single seek command jumps, in milliseconds.
pub const SEEK_STEP_MILLIS: u64 = 5000;

/// The timeline position a seek lands on: the current position moved by
/// `amount_millis` in the given direction, clamped into `[0, total_millis]`.
pub open spec fn seek_target_spec(
    s: PlaybackState,
    now: u64,
    amount_millis: u64,
    forward: bool,
    total_millis: u64,
) -> int {
    let cur = s.elapsed_raw(now);
    let moved = if forward {
        cur + amount_millis
    } else {
        cur - amount_millis
    };
    if moved < 0 {
        0
    } else if moved > total_millis {
        total_millis as int
    } else {
        moved
    }
}

/// Seek transition on the state value: the position becomes the clamped
/// target, a fresh run segment is anchored at `now`, the session counts as
/// live again, and the paused flag is kept as it was.
pub open spec fn seek_spec(
    s: PlaybackState,
    now: u64,
    amount_millis: u64,
    forward: bool,
    total_millis: u64,
) -> PlaybackState {
    PlaybackState {
        playing: true,
        paused: s.paused,
        stopped: false,
        anchor_millis: if s.paused {
            None
        } else {
            Some(now)
        },
        paused_offset_millis: seek_target_spec(s, now, amount_millis, forward, total_millis) as u64,
    }
}

impl PlaybackState {
    /// Jump by `amount_millis` forward or backward, clamped to the track.
    /// The returned action replaces the output session with one starting at
    /// the sample index of the new position; it starts playing at once
    /// unless the player was paused, in which case it stays suspended there.
    pub fn seek(&mut self, now: u64, amount_millis: u64, forward: bool, source: &DecodedSource)
        -> (act: SinkAction)
        requires
            old(self).wf(),
            old(self).clock_ok(now),
            source.wf(),
        ensures
            *final(self) == seek_spec(
                *old(self),
                now,
                amount_millis,
                forward,
                source.total_millis_spec() as u64,
            ),
            final(self).wf(),
            final(self).paused == old(self).paused,
            final(self).paused_offset_millis == seek_target_spec(
                *old(self),
                now,
                amount_millis,
                forward,
                source.total_millis_spec() as u64,
            ),
            act == (SinkAction::Restart {
                start_sample: source.sample_index_spec(final(self).paused_offset_millis) as usize,
                autoplay: !old(self).paused,
            }),
    {
        let cur = self.elapsed_millis(now);
        let total = source.total_duration_millis();
        let target: u64 = if forward {
            if cur >= total {
                total
            } else if amount_millis > total - cur {
                total
            } else {
                cur + amount_millis
            }
        } else {
            if amount_millis > cur {
                0
            } else if cur - amount_millis > total {
                total
            } else {
                cur - amount_millis
            }
        };
        let idx = source.start_sample_for(target);
        self.playing = true;
        self.stopped = false;
        self.anchor_millis = if self.paused {
            None
        } else {
            Some(now)
        };
        self.paused_offset_millis = target;
        SinkAction::Restart { start_sample: idx, autoplay: !self.paused }
    }

    /// Apply one user command: the whole read-modify-write a dispatcher
    /// performs under its lock, returning what the output should do.
    pub fn dispatch(&mut self, cmd: Command, now: u64, source: &DecodedSource) -> (act: SinkAction)
        requires
            old(self).wf(),
            old(self).clock_ok(now),
            source.wf(),
        ensures
            final(self).wf(),
            cmd == Command::Toggle ==> {
                &&& *final(self) == toggle_spec(*old(self), now)
                &&& act == toggle_action_spec(*old(self))
            },
            cmd == Command::SeekForward ==> {
                &&& *final(self) == seek_spec(
                    *old(self),
                    now,
                    SEEK_STEP_MILLIS,
                    true,
                    source.total_millis_spec() as u64,
                )
                &&& act == (SinkAction::Restart {
                    start_sample: source.sample_index_spec(
                        final(self).paused_offset_millis,
                    ) as usize,
                    autoplay: !old(self).paused,
                })
            },
            cmd == Command::SeekBackward ==> {
                &&& *final(self) == seek_spec(
                    *old(self),
                    now,
                    SEEK_STEP_MILLIS,
                    false,
                    source.total_millis_spec() as u64,
                )
                &&& act == (SinkAction::Restart {
                    start_sample: source.sample_index_spec(
                        final(self).paused_offset_millis,
                    ) as usize,
                    autoplay: !old(self).paused,
                })
            },
            cmd == Command::Stop ==> {
                &&& *final(self) == stopped_state()
                &&& act == SinkAction::Halt
            },
    {
        match cmd {
            Command::Toggle => self.toggle(now),
            Command::SeekForward => self.seek(now, SEEK_STEP_MILLIS, true, source),
            Command::SeekBackward => self.seek(now, SEEK_STEP_MILLIS, false, source),
            Command::Stop => self.stop(),
        }
    }
}

/// The state of a player that has not started yet.
pub open spec fn idle_state() -> PlaybackState {
    PlaybackState {
        playing: false,
        paused: false,
        stopped: false,
        anchor_millis: None,
        paused_offset_millis: 0,
    }
}

/// The state right after an explicit stop.
pub open spec fn stopped_state() -> PlaybackState {
    PlaybackState {
        playing: false,
        paused: false,
        stopped: true,
        anchor_millis: None,
        paused_offset_millis: 0,
    }
}

/// The state right after (re)starting playback at wall clock `now`.
pub open spec fn start_spec(now: u64) -> PlaybackState {
    PlaybackState {
        playing: true,
        paused: false,
        stopped: false,
        anchor_millis: Some(now),
        paused_offset_millis: 0,
    }
}

/// Pause transition on the state value: bank the closing run segment once;
/// identity unless actively running.
pub open spec fn pause_spec(s: PlaybackState, now: u64) -> PlaybackState {
    if s.playing && !s.paused && !s.stopped {
        PlaybackState {
            paused: true,
            anchor_millis: None,
            paused_offset_millis: (s.paused_offset_millis + (now - s.anchor_millis->Some_0)) as u64,
            ..s
        }
    } else {
        s
    }
}

/// Resume transition on the state value; identity unless paused.
pub open spec fn resume_spec(s: PlaybackState, now: u64) -> PlaybackState {
    if s.paused {
        PlaybackState { paused: false, anchor_millis: Some(now), ..s }
    } else {
        s
    }
}

/// Toggle transition on the state value.
pub open spec fn toggle_spec(s: PlaybackState, now: u64) -> PlaybackState {
    if !s.playing || s.stopped {
        start_spec(now)
    } else if s.paused {
        resume_spec(s, now)
    } else {
        pause_spec(s, now)
    }
}

/// Output action of the pause transition.
pub open spec fn pause_action_spec(s: PlaybackState) -> SinkAction {
    if s.playing && !s.paused && !s.stopped {
        SinkAction::Pause
    } else {
        SinkAction::Stay
    }
}

/// Output action of the resume transition.
pub open spec fn resume_action_spec(s: PlaybackState) -> SinkAction {
    if s.paused {
        SinkAction::Play
    } else {
        SinkAction::Stay
    }
}

/// Output action of the toggle transition.
pub open spec fn toggle_action_spec(s: PlaybackState) -> SinkAction {
    if !s.playing || s.stopped {
        SinkAction::Restart { start_sample: 0, autoplay: true }
    } else if s.paused {
        resume_action_spec(s)
    } else {
        pause_action_spec(s)
    }
}

/// Every transition carries a well-formed state to a well-formed state, so
/// any sequence of them keeps the invariant that the display bound below
/// rests on.
pub proof fn lemma_transitions_preserve_wf(
    s: PlaybackState,
    now: u64,
    amount_millis: u64,
    forward: bool,
    total_millis: u64,
)
    requires
        s.wf(),
        s.clock_ok(now),
        total_millis < MAX_TIME_MILLIS,
    ensures
        idle_state().wf(),
        stopped_state().wf(),
        start_spec(now).wf(),
        pause_spec(s, now).wf(),
        resume_spec(s, now).wf(),
        toggle_spec(s, now).wf(),
        seek_spec(s, now, amount_millis, forward, total_millis).wf(),
{
}

/// The displayed elapsed time lies in `[0, total]` in every state, whatever
/// sequence of transitions produced it.
pub proof fn lemma_elapsed_display_in_range(s: PlaybackState, now: u64, total_millis: u64)
    requires
        s.wf(),
        s.clock_ok(now),
    ensures
        0 <= s.elapsed_display_spec(now, total_millis),
        s.elapsed_display_spec(now, total_millis) <= total_millis,
{
}

/// Pausing twice in a row without an intervening resume banks the run segment
/// exactly once: the second pause is the identity.
pub proof fn lemma_pause_idempotent(s: PlaybackState, t1: u64, t2: u64)
    requires
        s.wf(),
        s.clock_ok(t1),
    ensures
        pause_spec(pause_spec(s, t1), t2) == pause_spec(s, t1),
{
}

/// A pause transition is invisible to a reader at the instant it happens:
/// the displayed elapsed time computed from the old and from the new state
/// agree at `now`, so no interleaved read can observe a half-applied update.
pub proof fn lemma_pause_preserves_elapsed(s: PlaybackState, now: u64, total_millis: u64)
    requires
        s.wf(),
        s.clock_ok(now),
    ensures
        pause_spec(s, now).elapsed_display_spec(now, total_millis)
            == s.elapsed_display_spec(now, total_millis),
{
}

/// Seek round trip: a forward seek by `d` at wall clock `t1` followed by a
/// backward seek by `d` at `t2`, with no clamping involved, restores the
/// elapsed time up to the wall-clock time that passed between the two
/// operations — exactly, when the player is paused.
pub proof fn lemma_seek_round_trip(s: PlaybackState, t1: u64, t2: u64, d: u64, total_millis: u64)
    requires
        s.wf(),
        s.clock_ok(t1),
        t1 <= t2 < MAX_TIME_MILLIS,
        total_millis < MAX_TIME_MILLIS,
        s.elapsed_raw(t1) + d + (t2 - t1) <= total_millis,
    ensures
        seek_spec(seek_spec(s, t1, d, true, total_millis), t2, d, false, total_millis).elapsed_raw(
            t2,
        ) == s.elapsed_raw(t1) + (if s.paused {
            0
        } else {
            (t2 - t1) as int
        }),
{
}

/// A resume transition is likewise invisible at its own instant.
pub proof fn lemma_resume_preserves_elapsed(s: PlaybackState, now: u64, total_millis: u64)
    requires
        s.wf(),
        s.clock_ok(now),
    ensures
        resume_spec(s, now).elapsed_display_spec(now, total_millis)
            == s.elapsed_display_spec(now, total_millis),
{
}

} // verus!
