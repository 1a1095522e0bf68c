//! The playback buttons: where they stand and which command each sends.

use vstd::prelude::*;
use crate::layout::{centered, centered_offset, Rect};
use crate::playback::{Command, Message};
use crate::span::Span;

verus! {

/// Width and height of every button.
pub const BTN_SIZE: i32 = 30;

/// The y coordinate that the buttons share.
pub const BTN_Y: i32 = 200;

/// How far the seek buttons stand from the play button.
pub const BTN_OFFSET: i32 = 100;

/// Seconds that one press of a seek button moves playback.
pub const SEEK_SECS: u64 = 5;

/// The play, fast-forward and rewind buttons.
#[derive(Clone, Copy, Debug, PartialEq, Eq, Structural)]
pub struct PlaybackButtons {
    pub play: Rect,
    pub fast_forward: Rect,
    pub rewind: Rect,
}

/// A button of the common size at `x`.
pub open spec fn button_at(x: int) -> Rect {
    Rect { x: x as i32, y: BTN_Y, w: BTN_SIZE, h: BTN_SIZE }
}

impl PlaybackButtons {
    /// The label that offers to play: shown while playback is paused.
    pub const PLAY_BUTTON: &'static str = "\u{f04b}";

    /// The label that offers to pause: shown while audio plays.
    pub const PAUSE_BUTTON: &'static str = "\u{f04c}";

    /// The label of the fast-forward button.
    pub const FAST_FORWARD_BUTTON: &'static str = "\u{f0d71}";

    /// The label of the rewind button.
    pub const REWIND_BUTTON: &'static str = "\u{f0d2a}";

    /// The buttons for a window `win_width` wide: the play button centred,
    /// the seek buttons `BTN_OFFSET` to either side of it.
    pub fn new(win_width: i32) -> (buttons: PlaybackButtons)
        ensures
            buttons.play == button_at(centered_offset(win_width as int, BTN_SIZE as int)),
            buttons.fast_forward == button_at(
                centered_offset(win_width as int, BTN_SIZE as int) + BTN_OFFSET,
            ),
            buttons.rewind == button_at(
                centered_offset(win_width as int, BTN_SIZE as int) - BTN_OFFSET,
            ),
            buttons.fast_forward.x == buttons.play.x + BTN_OFFSET,
            buttons.rewind.x == buttons.play.x - BTN_OFFSET,
    {
        let play_btn_x: i32 = centered(win_width, BTN_SIZE);
        let fast_forward_btn_x: i32 = play_btn_x + BTN_OFFSET;
        let rewind_btn_x: i32 = play_btn_x - BTN_OFFSET;
        PlaybackButtons {
            play: Rect { x: play_btn_x, y: BTN_Y, w: BTN_SIZE, h: BTN_SIZE },
            fast_forward: Rect { x: fast_forward_btn_x, y: BTN_Y, w: BTN_SIZE, h: BTN_SIZE },
            rewind: Rect { x: rewind_btn_x, y: BTN_Y, w: BTN_SIZE, h: BTN_SIZE },
        }
    }

    /// The label that the play button starts with: a track plays as soon as
    /// it is loaded.
    pub fn initial_label() -> (label: &'static str)
        ensures
            label@ == PlaybackButtons::PAUSE_BUTTON@,
    {
        PlaybackButtons::PAUSE_BUTTON
    }

    /// Whether `label` is one of the two labels of the play button.
    pub fn is_play_pause_label(label: &str) -> (known: bool)
        ensures
            known == (label@ == PlaybackButtons::PAUSE_BUTTON@ || label@
                == PlaybackButtons::PLAY_BUTTON@),
    {
        let given = label.to_owned();
        given == PlaybackButtons::PAUSE_BUTTON.to_owned() || given
            == PlaybackButtons::PLAY_BUTTON.to_owned()
    }

    /// The play button's new label and the command to send once it is
    /// clicked. Under the pause label audio is playing: the click pauses it
    /// and the button then offers to play. Under the play label it is the
    /// other way round.
    pub fn handle_play_pause_click(current_label: &str) -> (pair: (&'static str, Message))
        requires
            current_label@ == PlaybackButtons::PAUSE_BUTTON@ || current_label@
                == PlaybackButtons::PLAY_BUTTON@,
        ensures
            current_label@ == PlaybackButtons::PAUSE_BUTTON@ ==> pair.0@
                == PlaybackButtons::PLAY_BUTTON@ && pair.1 == Message::Pause,
            current_label@ == PlaybackButtons::PLAY_BUTTON@ ==> pair.0@
                == PlaybackButtons::PAUSE_BUTTON@ && pair.1 == Message::Play,
            pair.0@ != current_label@,
    {
        proof {
            reveal_strlit("\u{f04b}");
            reveal_strlit("\u{f04c}");
            assert(PlaybackButtons::PLAY_BUTTON@[0] != PlaybackButtons::PAUSE_BUTTON@[0]);
        }
        if current_label.to_owned() == PlaybackButtons::PAUSE_BUTTON.to_owned() {
            (PlaybackButtons::PLAY_BUTTON, Message::Pause)
        } else {
            (PlaybackButtons::PAUSE_BUTTON, Message::Play)
        }
    }

    /// The command that the fast-forward button sends.
    pub fn fast_forward_message() -> (message: Message)
        ensures
            message@ == Command::FastForward(SEEK_SECS as nat * 1_000_000_000),
    {
        Message::FastForward(Span::from_secs(SEEK_SECS))
    }

    /// The command that the rewind button sends.
    pub fn rewind_message() -> (message: Message)
        ensures
            message@ == Command::Rewind(SEEK_SECS as nat * 1_000_000_000),
    {
        Message::Rewind(Span::from_secs(SEEK_SECS))
    }
}

} // verus!
