//! Verified core of a terminal audio player: the playback state machine and
//! its time bookkeeping, the decoded-source model, seek arithmetic, and the
//! textual progress rendering. Audio output, terminal input, file and network
//! access live outside this crate and drive it with plain values.
pub mod decode;
pub mod paths;
pub mod progress;
pub mod source;
pub mod state;
pub mod tags;
