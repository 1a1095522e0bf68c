//! Playback-control core of a small audio player.
//!
//! - `span`: lengths of time and positions within a track.
//! - `playback`: the command protocol, seek arithmetic and the worker's
//!   decisions, with the laws that hold of them.
//! - `audio_handler`: the worker itself, which owns the audio sink, and the
//!   step of the position reporter.
//! - `fault`: what can go wrong, and whether it ends the process.
//! - `layout`: rectangles and centring.
//! - `progress_bar`: the knob, the timestamps and the clicks of the progress
//!   bar.
//! - `playback_buttons`: the play, fast-forward and rewind buttons.
//! - `now_playing`: title, artist and cover from a track's metadata.

pub mod span;
pub mod playback;
pub mod audio_handler;
pub mod fault;
pub mod layout;
pub mod progress_bar;
pub mod playback_buttons;
pub mod now_playing;
