//! The progress bar: where its knob stands, what its timestamps read, and
//! which command a click on it sends.

use vstd::prelude::*;
use vstd::string::StringExecFns;
use crate::layout::{centered, centered_offset};
use crate::playback::{clamped_position, Command, Message};
use crate::span::Span;

verus! {

/// Width of the bar in pixels.
pub const WIDTH: i32 = 250;

/// Height of the bar in pixels.
pub const HEIGHT: i32 = 5;

/// The bar's y coordinate.
pub const PROGRESS_BAR_Y: i32 = 190;

/// How far above the bar's top edge the knob is drawn.
pub const KNOB_Y_OFFSET: i32 = -2;

/// The knob's diameter in pixels.
pub const KNOB_DIAMETER: i32 = 10;

/// The character for a decimal digit.
pub open spec fn digit(d: nat) -> char {
    if d == 0 {
        '0'
    } else if d == 1 {
        '1'
    } else if d == 2 {
        '2'
    } else if d == 3 {
        '3'
    } else if d == 4 {
        '4'
    } else if d == 5 {
        '5'
    } else if d == 6 {
        '6'
    } else if d == 7 {
        '7'
    } else if d == 8 {
        '8'
    } else {
        '9'
    }
}

/// A number in decimal, without leading zeros.
pub open spec fn decimal(n: nat) -> Seq<char>
    decreases n,
{
    if n < 10 {
        seq![digit(n)]
    } else {
        decimal(n / 10).push(digit(n % 10))
    }
}

/// A number below one hundred as exactly two decimal digits.
pub open spec fn two_digits(n: nat) -> Seq<char> {
    seq![digit(n / 10), digit(n % 10)]
}

/// A number of seconds as a timestamp: minutes and two-digit seconds, and
/// from one hour on, hours, two-digit minutes and two-digit seconds.
pub open spec fn timestamp(total_secs: nat) -> Seq<char> {
    let hours = total_secs / 3600;
    let minutes = (total_secs % 3600) / 60;
    let seconds = total_secs % 60;
    if hours > 0 {
        decimal(hours) + seq![':'] + two_digits(minutes) + seq![':'] + two_digits(seconds)
    } else {
        decimal(minutes) + seq![':'] + two_digits(seconds)
    }
}

/// The knob's x coordinate for a bar at `x`, `width` wide, that shows
/// `value` out of `maximum`: the bar's origin plus the part of the width
/// that `value` is of `maximum`, rounded down. With nothing to show, the
/// knob stands at the origin.
pub open spec fn knob_position(x: int, width: int, value: nat, maximum: nat) -> int {
    if maximum == 0 {
        x
    } else {
        x + (value * width) / (maximum as int)
    }
}

/// The position in the track that a click `rel_x` pixels into a bar
/// `width` wide stands for, rounded down to the nanosecond.
pub open spec fn click_position(total: nat, rel_x: nat, width: nat) -> nat {
    if width == 0 {
        0
    } else {
        (total * rel_x) / width
    }
}

/// How far into the bar a click at `mouse_x` falls, held within the bar.
pub open spec fn relative_x(mouse_x: int, x: int, width: int) -> int {
    if mouse_x - x < 0 {
        0
    } else if mouse_x - x > width {
        width
    } else {
        mouse_x - x
    }
}

/// The command that moves playback from `current` to `target`: a
/// fast-forward where the target lies ahead, else a rewind.
pub open spec fn seek_command(current: nat, target: nat) -> Command {
    if target > current {
        Command::FastForward((target - current) as nat)
    } else {
        Command::Rewind((current - target) as nat)
    }
}

/// The knob moves linearly with the value. It stands at the bar's origin
/// for the value zero and at the bar's far end for the maximum, it never
/// moves back as the value grows, and it stands at the last whole pixel
/// that is not beyond the exact place `x + value / maximum * width`.
pub proof fn lemma_knob_is_linear(x: int, width: int, value: nat, larger: nat, maximum: nat)
    requires
        0 <= width,
        0 < maximum,
        value <= larger,
    ensures
        knob_position(x, width, 0, maximum) == x,
        knob_position(x, width, maximum, maximum) == x + width,
        knob_position(x, width, value, maximum) <= knob_position(x, width, larger, maximum),
        (knob_position(x, width, value, maximum) - x) * maximum <= value * width,
        value * width < (knob_position(x, width, value, maximum) - x + 1) * maximum,
{
    let m = maximum as int;
    assert((0 * width) / m == 0) by (nonlinear_arith)
        requires
            m > 0,
    ;
    assert((maximum * width) / m == width) by (nonlinear_arith)
        requires
            m > 0,
            m == maximum,
    ;
    assert((value * width) / m <= (larger * width) / m) by (nonlinear_arith)
        requires
            m > 0,
            0 <= width,
            value <= larger,
    ;
    let product = value * width;
    assert(((product / m) * m <= product) && (product < (product / m + 1) * m)) by (nonlinear_arith)
        requires
            m > 0,
    ;
}

/// The text of one decimal digit.
fn digit_str(d: u64) -> (s: &'static str)
    requires
        d < 10,
    ensures
        s@ == seq![digit(d as nat)],
{
    proof {
        reveal_strlit("0");
        reveal_strlit("1");
        reveal_strlit("2");
        reveal_strlit("3");
        reveal_strlit("4");
        reveal_strlit("5");
        reveal_strlit("6");
        reveal_strlit("7");
        reveal_strlit("8");
        reveal_strlit("9");
    }
    let s = if d == 0 {
        "0"
    } else if d == 1 {
        "1"
    } else if d == 2 {
        "2"
    } else if d == 3 {
        "3"
    } else if d == 4 {
        "4"
    } else if d == 5 {
        "5"
    } else if d == 6 {
        "6"
    } else if d == 7 {
        "7"
    } else if d == 8 {
        "8"
    } else {
        "9"
    };
    assert(s@ =~= seq![digit(d as nat)]);
    s
}

/// Appends `n` in decimal.
fn push_decimal(out: &mut String, n: u64)
    ensures
        final(out)@ == old(out)@ + decimal(n as nat),
    decreases n,
{
    if n >= 10 {
        push_decimal(out, n / 10);
    }
    out.append(digit_str(n % 10));
    assert(final(out)@ =~= old(out)@ + decimal(n as nat));
}

/// Appends `n` as two decimal digits.
fn push_two_digits(out: &mut String, n: u64)
    requires
        n < 100,
    ensures
        final(out)@ == old(out)@ + two_digits(n as nat),
{
    out.append(digit_str(n / 10));
    out.append(digit_str(n % 10));
    assert(final(out)@ =~= old(out)@ + two_digits(n as nat));
}

/// Appends the colon that parts hours, minutes and seconds.
fn push_colon(out: &mut String)
    ensures
        final(out)@ == old(out)@ + seq![':'],
{
    proof {
        reveal_strlit(":");
    }
    out.append(":");
    assert(final(out)@ =~= old(out)@ + seq![':']);
}

/// What the pointer does to the bar.
#[derive(Clone, Copy, Debug, PartialEq, Eq, Structural)]
pub enum BarEvent {
    /// The pointer has come over the bar.
    Enter,
    /// The pointer has left the bar.
    Leave,
    /// The left button was pressed with the pointer at this x coordinate.
    LeftPush(i32),
    /// Anything else.
    Other,
}

/// What the bar does about an event.
#[derive(Clone, Copy, Debug, PartialEq, Eq, Structural)]
pub enum BarReaction {
    /// Draw the knob from now on.
    ShowKnob,
    /// Draw no knob from now on.
    HideKnob,
    /// Send this command to the worker.
    Send(Message),
    /// Leave the event to others.
    Ignore,
}

/// What a `BarReaction` does, with the command as the contracts see it.
pub enum BarEffect {
    ShowKnob,
    HideKnob,
    Send(Command),
    Ignore,
}

impl View for BarReaction {
    type V = BarEffect;

    open spec fn view(&self) -> BarEffect {
        match *self {
            BarReaction::ShowKnob => BarEffect::ShowKnob,
            BarReaction::HideKnob => BarEffect::HideKnob,
            BarReaction::Send(message) => BarEffect::Send(message@),
            BarReaction::Ignore => BarEffect::Ignore,
        }
    }
}

/// The bar as the display layer holds it.
pub struct ProgressBar {
    x: i32,
    maximum: u128,
    value: u128,
    audio_length: Span,
    current_audio_pos: Span,
}

/// A progress bar as the contracts see it.
pub struct BarView {
    /// The bar's x coordinate.
    pub x: int,
    /// The value at which the bar is full: the track's length in
    /// milliseconds.
    pub maximum: nat,
    /// The value shown.
    pub value: nat,
    /// The track's length in nanoseconds.
    pub audio_length: nat,
    /// The position last taken over, in nanoseconds.
    pub current_audio_pos: nat,
}

impl View for ProgressBar {
    type V = BarView;

    closed spec fn view(&self) -> BarView {
        BarView {
            x: self.x as int,
            maximum: self.maximum as nat,
            value: self.value as nat,
            audio_length: self.audio_length@,
            current_audio_pos: self.current_audio_pos@,
        }
    }
}

impl ProgressBar {
    #[verifier::type_invariant]
    closed spec fn inv(self) -> bool {
        &&& self.value <= self.maximum
        &&& self.maximum == self.audio_length@ / 1_000_000
        &&& self.maximum <= Span::max_nanos() / 1_000_000
        &&& self.current_audio_pos@ <= self.audio_length@
        &&& -1_200_000_000 <= self.x <= 1_200_000_000
    }

    /// A bar for a track of length `audio_length`, centred in a window
    /// `win_width` wide, with playback at the start.
    pub fn new(win_width: i32, audio_length: Span) -> (bar: ProgressBar)
        ensures
            bar@ == (BarView {
                x: centered_offset(win_width as int, WIDTH as int),
                maximum: audio_length@ / 1_000_000,
                value: 0,
                audio_length: audio_length@,
                current_audio_pos: 0,
            }),
    {
        ProgressBar {
            x: centered(win_width, WIDTH),
            maximum: audio_length.as_millis(),
            value: 0,
            audio_length,
            current_audio_pos: Span::zero(),
        }
    }

    /// The bar's place and size.
    pub fn frame(&self) -> (frame: crate::layout::Rect)
        ensures
            frame == (crate::layout::Rect { x: self@.x as i32, y: PROGRESS_BAR_Y, w: WIDTH, h: HEIGHT }),
            frame.x == self@.x,
    {
        crate::layout::Rect { x: self.x, y: PROGRESS_BAR_Y, w: WIDTH, h: HEIGHT }
    }

    /// The position last taken over. It lies within the track.
    pub fn current_audio_pos(&self) -> (position: Span)
        ensures
            position@ == self@.current_audio_pos,
            position@ <= self@.audio_length,
    {
        proof {
            use_type_invariant(self);
        }
        self.current_audio_pos
    }

    /// The value shown, in milliseconds.
    pub fn value(&self) -> (value: u128)
        ensures
            value == self@.value,
            value <= self@.maximum,
    {
        proof {
            use_type_invariant(self);
        }
        self.value
    }

    /// The value at which the bar is full, in milliseconds.
    pub fn maximum(&self) -> (maximum: u128)
        ensures
            maximum == self@.maximum,
    {
        self.maximum
    }

    /// Shows `value`, or the maximum where `value` lies beyond it.
    pub fn set_value(&mut self, value: u128)
        ensures
            final(self)@ == (BarView {
                value: if value <= old(self)@.maximum { value as nat } else { old(self)@.maximum },
                ..old(self)@
            }),
    {
        proof {
            use_type_invariant(&*self);
        }
        self.value = if value <= self.maximum { value } else { self.maximum };
    }

    /// Takes over the position samples that have arrived since the last
    /// call, oldest first. The newest one counts, held within the track;
    /// with no sample the position stays. The value shown follows the
    /// position.
    pub fn update(&mut self, samples: &Vec<Span>)
        ensures
            final(self)@.current_audio_pos == if samples@.len() == 0 {
                old(self)@.current_audio_pos
            } else {
                clamped_position(samples@.last()@, old(self)@.audio_length)
            },
            final(self)@.value == final(self)@.current_audio_pos / 1_000_000,
            final(self)@.current_audio_pos <= final(self)@.audio_length,
            final(self)@.x == old(self)@.x,
            final(self)@.maximum == old(self)@.maximum,
            final(self)@.audio_length == old(self)@.audio_length,
    {
        proof {
            use_type_invariant(&*self);
        }
        let n: usize = samples.len();
        if n > 0 {
            self.current_audio_pos = samples[n - 1].clamp(Span::zero(), self.audio_length);
        }
        self.value = self.current_audio_pos.as_millis();
    }

    /// The timestamp of the position last taken over.
    pub fn current_timestamp(&self) -> (text: String)
        ensures
            text@ == timestamp(self@.current_audio_pos / 1_000_000_000),
    {
        ProgressBar::format_duration(self.current_audio_pos)
    }

    /// The timestamp of the track's end.
    pub fn total_timestamp(&self) -> (text: String)
        ensures
            text@ == timestamp(self@.audio_length / 1_000_000_000),
    {
        ProgressBar::format_duration(self.audio_length)
    }

    /// A span as a timestamp. Fractions of a second are dropped.
    pub fn format_duration(duration: Span) -> (text: String)
        ensures
            text@ == timestamp(duration@ / 1_000_000_000),
    {
        let total_secs: u64 = duration.as_secs();
        let hours: u64 = total_secs / 3600;
        let rem_secs: u64 = total_secs % 3600;
        let minutes: u64 = rem_secs / 60;
        let seconds: u64 = rem_secs % 60;
        let mut text = String::new();
        if hours > 0 {
            push_decimal(&mut text, hours);
            push_colon(&mut text);
            push_two_digits(&mut text, minutes);
        } else {
            push_decimal(&mut text, minutes);
        }
        push_colon(&mut text);
        push_two_digits(&mut text, seconds);
        proof {
            assert(seconds == total_secs % 60) by {
                assert(total_secs % 3600 % 60 == total_secs % 60) by (nonlinear_arith);
            }
            assert(text@ =~= timestamp(total_secs as nat));
        }
        text
    }

    /// The x coordinate of the knob.
    pub fn knob_x(&self) -> (knob: i32)
        ensures
            knob == knob_position(self@.x, WIDTH as int, self@.value, self@.maximum),
            self@.x <= knob <= self@.x + WIDTH,
    {
        proof {
            use_type_invariant(self);
        }
        if self.maximum == 0 {
            self.x
        } else {
            let scaled: u128 = self.value * 250;
            let offset: u128 = scaled / self.maximum;
            assert(offset <= 250) by (nonlinear_arith)
                requires
                    offset == scaled / self.maximum,
                    scaled == self.value * 250,
                    self.value <= self.maximum,
                    self.maximum > 0,
            ;
            self.x + offset as i32
        }
    }

    /// The y coordinate of the knob.
    pub fn knob_y(&self) -> (y: i32)
        ensures
            y == PROGRESS_BAR_Y + KNOB_Y_OFFSET,
    {
        PROGRESS_BAR_Y + KNOB_Y_OFFSET
    }

    /// The position in the track that a click at `mouse_x` stands for.
    pub fn position_at(&self, mouse_x: i32) -> (target: Span)
        ensures
            target@ == click_position(
                self@.audio_length,
                relative_x(mouse_x as int, self@.x, WIDTH as int) as nat,
                WIDTH as nat,
            ),
            target@ <= self@.audio_length,
    {
        proof {
            use_type_invariant(self);
        }
        let from_origin: i64 = mouse_x as i64 - self.x as i64;
        let rel_x: u128 = if from_origin < 0 {
            0
        } else if from_origin > 250 {
            250
        } else {
            from_origin as u128
        };
        let total: u128 = self.audio_length.as_nanos();
        assert(total * rel_x <= Span::max_nanos() * 250) by (nonlinear_arith)
            requires
                total <= Span::max_nanos(),
                rel_x <= 250,
        ;
        let scaled: u128 = total * rel_x;
        let nanos: u128 = scaled / 250;
        assert(nanos <= total) by (nonlinear_arith)
            requires
                nanos == scaled / 250,
                scaled == total * rel_x,
                rel_x <= 250,
        ;
        Span::from_nanos(nanos)
    }

    /// What the bar does about an event: the knob shows while the pointer
    /// is over the bar, and a left click seeks to the place clicked.
    pub fn react(&self, event: BarEvent) -> (reaction: BarReaction)
        ensures
            reaction@ == match event {
                BarEvent::Enter => BarEffect::ShowKnob,
                BarEvent::Leave => BarEffect::HideKnob,
                BarEvent::LeftPush(mouse_x) => BarEffect::Send(
                    seek_command(
                        self@.current_audio_pos,
                        click_position(
                            self@.audio_length,
                            relative_x(mouse_x as int, self@.x, WIDTH as int) as nat,
                            WIDTH as nat,
                        ),
                    ),
                ),
                BarEvent::Other => BarEffect::Ignore,
            },
    {
        match event {
            BarEvent::Enter => BarReaction::ShowKnob,
            BarEvent::Leave => BarReaction::HideKnob,
            BarEvent::LeftPush(mouse_x) => BarReaction::Send(self.seek_message(mouse_x)),
            BarEvent::Other => BarReaction::Ignore,
        }
    }

    /// Whether the bar has dealt with an event, which is what it tells the
    /// toolkit: yes for the knob, for a click only if the command could be
    /// sent, and no for an event that it ignored.
    pub fn handled(reaction: BarReaction, sent: bool) -> (done: bool)
        ensures
            done == match reaction {
                BarReaction::ShowKnob => true,
                BarReaction::HideKnob => true,
                BarReaction::Send(_) => sent,
                BarReaction::Ignore => false,
            },
    {
        match reaction {
            BarReaction::ShowKnob => true,
            BarReaction::HideKnob => true,
            BarReaction::Send(_) => sent,
            BarReaction::Ignore => false,
        }
    }

    /// The command that a left click at `mouse_x` sends: a seek from the
    /// position last taken over to the position clicked.
    pub fn seek_message(&self, mouse_x: i32) -> (message: Message)
        ensures
            message@ == seek_command(
                self@.current_audio_pos,
                click_position(
                    self@.audio_length,
                    relative_x(mouse_x as int, self@.x, WIDTH as int) as nat,
                    WIDTH as nat,
                ),
            ),
    {
        let target = self.position_at(mouse_x);
        let current = self.current_audio_pos;
        match target.checked_sub(current) {
            Some(distance) => if distance.is_zero() {
                Message::Rewind(distance)
            } else {
                Message::FastForward(distance)
            },
            None => Message::Rewind(current.saturating_sub(target)),
        }
    }
}

} // verus!
