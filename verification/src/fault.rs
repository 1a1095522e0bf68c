//! What can go wrong, and how much it matters.
//!
//! Faults come in two tiers. What fails at startup is fatal: there is
//! nothing to play, so the diagnostic is reported and the process ends. What
//! fails while playing is operational: it is logged and absorbed, the
//! operation has no lasting effect and playback goes on as it was. Nothing is
//! ever tried again by itself.

use vstd::prelude::*;
use vstd::string::StringExecFns;
use crate::audio_handler::SeekFailure;
use crate::playback::Message;

verus! {

/// How much a fault matters.
#[derive(Clone, Copy, Debug, PartialEq, Eq, Structural)]
pub enum Tier {
    /// Report and end the process.
    Fatal,
    /// Log and go on.
    Operational,
}

/// Something that went wrong.
#[derive(Clone, Copy, Debug, PartialEq, Eq, Structural)]
pub enum Fault {
    /// The audio file could not be opened.
    MissingFile,
    /// The audio file could not be decoded.
    UnsupportedFormat,
    /// The track's length could not be determined.
    UnknownDuration,
    /// No audio output device could be opened.
    NoOutputDevice,
    /// The sink refused a fast-forward.
    FastForwardFailed(SeekFailure),
    /// The sink refused a rewind.
    RewindFailed(SeekFailure),
    /// A command could not be sent: the worker is gone.
    CommandNotSent,
    /// A position could not be sent: the display is gone.
    PositionNotSent,
}

impl Fault {
    /// The tier of each fault: what happens at startup is fatal, the rest
    /// operational.
    pub open spec fn tier_of(self) -> Tier {
        match self {
            Fault::MissingFile => Tier::Fatal,
            Fault::UnsupportedFormat => Tier::Fatal,
            Fault::UnknownDuration => Tier::Fatal,
            Fault::NoOutputDevice => Tier::Fatal,
            _ => Tier::Operational,
        }
    }

    /// The diagnostic of each fault.
    pub open spec fn text_of(self) -> Seq<char> {
        match self {
            Fault::MissingFile => "File path does not exist. Exiting..."@,
            Fault::UnsupportedFormat => "File format not supported. Exiting..."@,
            Fault::UnknownDuration => "Duration could not be determined. Exiting..."@,
            Fault::NoOutputDevice => "Unable to open the default audio stream. Exiting..."@,
            Fault::FastForwardFailed(_) => "Unable to fast-forward"@,
            Fault::RewindFailed(_) => "Unable to rewind"@,
            Fault::CommandNotSent => "Unable to send command to audio thread"@,
            Fault::PositionNotSent => "Unable to send position to progress bar"@,
        }
    }

    /// The fault that a refused seek stands for.
    pub open spec fn seek_fault(message: Message, failure: Option<SeekFailure>) -> Option<Fault> {
        match (message, failure) {
            (Message::FastForward(_), Some(why)) => Some(Fault::FastForwardFailed(why)),
            (Message::Rewind(_), Some(why)) => Some(Fault::RewindFailed(why)),
            _ => None,
        }
    }

    /// The fault to log once `message` has been handled and the sink has
    /// answered with `failure`: none unless a seek was refused.
    pub fn of_seek(message: Message, failure: Option<SeekFailure>) -> (fault: Option<Fault>)
        ensures
            fault == Fault::seek_fault(message, failure),
    {
        match failure {
            None => None,
            Some(why) => match message {
                Message::FastForward(_) => Some(Fault::FastForwardFailed(why)),
                Message::Rewind(_) => Some(Fault::RewindFailed(why)),
                _ => None,
            },
        }
    }

    /// How much the fault matters.
    pub fn tier(&self) -> (tier: Tier)
        ensures
            tier == self.tier_of(),
    {
        match self {
            Fault::MissingFile => Tier::Fatal,
            Fault::UnsupportedFormat => Tier::Fatal,
            Fault::UnknownDuration => Tier::Fatal,
            Fault::NoOutputDevice => Tier::Fatal,
            _ => Tier::Operational,
        }
    }

    /// Whether the process ends on this fault.
    pub fn is_fatal(&self) -> (fatal: bool)
        ensures
            fatal == (self.tier_of() == Tier::Fatal),
    {
        self.tier() == Tier::Fatal
    }

    /// The diagnostic to report or log.
    pub fn message(&self) -> (text: String)
        ensures
            text@ == self.text_of(),
    {
        let text = match self {
            Fault::MissingFile => "File path does not exist. Exiting...",
            Fault::UnsupportedFormat => "File format not supported. Exiting...",
            Fault::UnknownDuration => "Duration could not be determined. Exiting...",
            Fault::NoOutputDevice => "Unable to open the default audio stream. Exiting...",
            Fault::FastForwardFailed(_) => "Unable to fast-forward",
            Fault::RewindFailed(_) => "Unable to rewind",
            Fault::CommandNotSent => "Unable to send command to audio thread",
            Fault::PositionNotSent => "Unable to send position to progress bar",
        };
        String::from_str(text)
    }
}

} // verus!
