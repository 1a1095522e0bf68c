//! The playback worker: the audio sink and the worker's record of it.
//!
//! `AudioHandler` owns the sink and a `Player`, the record of state,
//! position and track length. For every command it first takes a reading of
//! the sink, then decides, carries the action out on the sink, and notes in
//! the record what became of it. A seek sets out from the position as the
//! sink reported it, and its target is handed to the sink as computed. The
//! sink plays on while nobody looks, so nothing is known of a reading before
//! it is taken: every call returns the reading it took, and its contract
//! says exactly what the record and the action are for that reading.

use vstd::prelude::*;
use crate::playback::{
    after_action, after_reading, clamped_position, decide, effect_of, fast_forward_position,
    rewind_position, Action, Command, Effect, Message, PlaybackState, Player, Snapshot,
};
use crate::span::{Span, NANOS_PER_SEC};

verus! {

/// `rodio::Sink`, the handle that controls playback on an output. Nothing
/// is known of what it holds.
#[verifier::external_type_specification]
#[verifier::external_body]
pub struct ExSink(rodio::Sink);

/// `rodio::source::SeekError`, the sink's answer to a seek that it did not
/// carry out. Nothing is known of what it holds.
#[verifier::external_type_specification]
#[verifier::external_body]
pub struct ExSeekError(rodio::source::SeekError);

/// Milliseconds between two position samples.
pub const REPORT_INTERVAL_MILLIS: u64 = 100;

/// Why the sink did not carry out a seek.
#[derive(Clone, Copy, Debug, PartialEq, Eq, Structural)]
pub enum SeekFailure {
    /// A source in the sink cannot seek.
    NotSupported,
    /// A decoder or a source failed while seeking.
    Failed,
}

/// What the sink said when it was read.
#[derive(Clone, Copy, Debug, PartialEq, Eq, Structural)]
pub struct Reading {
    /// The position as the sink reports it.
    pub raw: Span,
    /// Whether the sink has nothing left to play.
    pub queue_empty: bool,
}

/// One command as it was handled.
#[derive(Clone, Copy, Debug, PartialEq, Eq, Structural)]
pub struct Outcome {
    /// The reading taken when the command arrived.
    pub reading: Reading,
    /// The action that was carried out.
    pub action: Action,
    /// Why a seek did not take place; `None` for every other action and for a
    /// seek that the sink accepted.
    pub failure: Option<SeekFailure>,
}

/// What the position reporter does after it has tried to forward a sample.
#[derive(Clone, Copy, Debug, PartialEq, Eq, Structural)]
pub enum ReporterStep {
    /// Sleep for one interval and sample again.
    Continue,
    /// Leave the loop for good.
    Stop,
}

/// `rodio::Sink::get_pos`: the position of the sound being played, as the
/// sink last recorded it, in whole seconds and the nanoseconds beyond them.
/// Of the position nothing is claimed but what std says of every duration:
/// its nanoseconds stay below one second.
#[verifier::external_body]
fn sink_get_pos(sink: &rodio::Sink) -> (at: (u64, u32))
    ensures
        at.1 < NANOS_PER_SEC,
{
    let at = sink.get_pos();
    (at.as_secs(), at.subsec_nanos())
}

/// `rodio::Sink::try_seek`: asks the sink to move to the absolute position
/// of `secs` seconds and `nanos` nanoseconds. Nothing is claimed of the
/// answer. With a sound in the queue the call waits for the output's next
/// periodic access, a few milliseconds while the output is being driven.
#[verifier::external_body]
fn sink_try_seek(sink: &rodio::Sink, secs: u64, nanos: u32) -> Result<(), rodio::source::SeekError>
    requires
        nanos < NANOS_PER_SEC,
{
    sink.try_seek(std::time::Duration::new(secs, nanos))
}

/// `rodio::Sink::play`: resumes a paused sink.
#[verifier::external_body]
fn sink_play(sink: &rodio::Sink) {
    sink.play()
}

/// `rodio::Sink::pause`: pauses the sink.
#[verifier::external_body]
fn sink_pause(sink: &rodio::Sink) {
    sink.pause()
}

/// `rodio::Sink::empty`: whether the sink has no more sounds to play at the
/// moment of the call. Nothing is claimed of the value.
#[verifier::external_body]
fn sink_empty(sink: &rodio::Sink) -> bool {
    sink.empty()
}

/// Tells the variants of `rodio::source::SeekError` apart. Nothing is
/// claimed of the value.
#[verifier::external_body]
fn seek_error_kind(error: &rodio::source::SeekError) -> SeekFailure {
    match error {
        rodio::source::SeekError::NotSupported { .. } => SeekFailure::NotSupported,
        _ => SeekFailure::Failed,
    }
}

/// The failure, if any, that the sink's answer to a seek stands for.
pub fn seek_failure(answer: Result<(), rodio::source::SeekError>) -> (failure: Option<SeekFailure>)
    ensures
        failure.is_none() == answer.is_ok(),
{
    match answer {
        Ok(()) => None,
        Err(error) => Some(seek_error_kind(&error)),
    }
}

/// What the position reporter does next: it goes on for as long as its
/// samples are taken, and stops the first time one is not, because the
/// consumer's end of the channel is gone.
pub fn after_send(delivered: bool) -> (step: ReporterStep)
    ensures
        step == if delivered { ReporterStep::Continue } else { ReporterStep::Stop },
{
    if delivered {
        ReporterStep::Continue
    } else {
        ReporterStep::Stop
    }
}

/// The record once a reading has been taken.
pub open spec fn seen(s: Snapshot, reading: Reading) -> Snapshot {
    after_reading(s, reading.raw@, reading.queue_empty)
}

/// Whether `outcome` is how `command` is handled from the record `s`: the
/// action is the one that the command calls for in the state that the
/// outcome's reading leaves, a seek sets out from the position read, and
/// nothing but a seek fails.
pub open spec fn handles(s: Snapshot, command: Command, outcome: Outcome) -> bool {
    &&& outcome.action@ == effect_of(
        seen(s, outcome.reading).state,
        outcome.reading.raw@,
        command,
    )
    &&& outcome.failure is Some ==> outcome.action@ is Seek
}

/// The position to show at once after a command has been handled: the
/// target of a seek that the sink accepted. Nothing else gives one: a
/// refused seek has no lasting effect.
pub open spec fn shown_after(outcome: Outcome) -> Option<Span> {
    match (outcome.action, outcome.failure) {
        (Action::Seek(target), None) => Some(target),
        _ => None,
    }
}

/// The record after a command has been handled with `outcome`: the reading
/// is taken, then the action counts, unless it was a seek that the sink
/// refused.
pub open spec fn settled(s: Snapshot, outcome: Outcome) -> Snapshot {
    after_action(seen(s, outcome.reading), outcome.action@, outcome.failure is None)
}

/// The record after a run of commands has been handled with `outcomes`.
pub open spec fn settled_all(s: Snapshot, outcomes: Seq<Outcome>) -> Snapshot
    decreases outcomes.len(),
{
    if outcomes.len() == 0 {
        s
    } else {
        settled(settled_all(s, outcomes.drop_last()), outcomes.last())
    }
}

impl Outcome {
    /// The position to show at once, without waiting for the next sample:
    /// the target of the seek, if the action was a seek and the sink
    /// accepted it.
    pub fn position_to_show(&self) -> (shown: Option<Span>)
        ensures
            shown == shown_after(*self),
            shown is Some <==> (self.action@ is Seek && self.failure is None),
    {
        match self.action {
            Action::Seek(target) => match self.failure {
                None => Some(target),
                Some(_) => None,
            },
            _ => None,
        }
    }
}

/// The audio sink together with the worker's record of it.
pub struct AudioHandler {
    sink: rodio::Sink,
    player: Player,
}

impl View for AudioHandler {
    type V = Snapshot;

    closed spec fn view(&self) -> Snapshot {
        self.player@
    }
}

impl AudioHandler {
    #[verifier::type_invariant]
    closed spec fn inv(self) -> bool {
        self.player@.state != PlaybackState::Uninitialized
    }

    /// Takes over a sink to which the track has been appended; `total` is
    /// the track's length. Playback has begun.
    pub fn new(sink: rodio::Sink, total: Span) -> (handler: AudioHandler)
        ensures
            handler@ == (Snapshot { state: PlaybackState::Playing, position: 0, total: total@ }),
    {
        let mut player = Player::new(total);
        player.start();
        AudioHandler { sink, player }
    }

    /// The track's length.
    pub fn total(&self) -> (total: Span)
        ensures
            total@ == self@.total,
    {
        self.player.total()
    }

    /// The state as of the last reading. A handler has always begun to
    /// play.
    pub fn state(&self) -> (state: PlaybackState)
        ensures
            state == self@.state,
            state != PlaybackState::Uninitialized,
    {
        proof {
            use_type_invariant(self);
        }
        self.player.state()
    }

    /// The position as of the last reading or seek. It lies within the
    /// track.
    pub fn position(&self) -> (position: Span)
        ensures
            position@ == self@.position,
            position@ <= self@.total,
    {
        self.player.position()
    }

    /// Takes a reading of the sink and notes it in the record.
    pub fn read(&mut self) -> (reading: Reading)
        ensures
            final(self)@ == seen(old(self)@, reading),
            final(self)@.position <= final(self)@.total,
            final(self)@.total == old(self)@.total,
            old(self)@.state != PlaybackState::Uninitialized,
    {
        proof {
            use_type_invariant(&*self);
        }
        let at = sink_get_pos(&self.sink);
        let queue_empty = sink_empty(&self.sink);
        let reading = Reading { raw: Span::new(at.0, at.1), queue_empty };
        let mut player = self.player;
        player.observe(reading.raw, reading.queue_empty);
        self.player = player;
        reading
    }

    /// Takes a position sample: a reading of the sink, held within the
    /// track. Once playback has finished a reading no longer moves the
    /// position, and the sample is the position on record.
    pub fn sample(&mut self) -> (sample: Span)
        ensures
            exists|reading: Reading| final(self)@ == #[trigger] seen(old(self)@, reading),
            sample@ == final(self)@.position,
            sample@ <= final(self)@.total,
            final(self)@.total == old(self)@.total,
            old(self)@.state != PlaybackState::Uninitialized,
    {
        let reading = self.read();
        assert(final(self)@ == seen(old(self)@, reading));
        self.player.position()
    }

    /// Handles one command to the end: takes a reading, decides, carries the
    /// action out on the sink and notes what became of it. A seek is handed
    /// to the sink once, also when the sink has run empty. One that the sink
    /// refuses is not tried again and leaves the record as the reading left
    /// it.
    pub fn handle_messages(&mut self, message: Message) -> (outcome: Outcome)
        ensures
            handles(old(self)@, message@, outcome),
            final(self)@ == settled(old(self)@, outcome),
            final(self)@.position <= final(self)@.total,
            final(self)@.total == old(self)@.total,
            old(self)@.state != PlaybackState::Uninitialized,
    {
        let reading = self.read();
        let action = decide(self.player.state(), reading.raw, message);
        let failure = match action {
            Action::Nothing => None,
            Action::Resume => {
                sink_play(&self.sink);
                None
            },
            Action::Suspend => {
                sink_pause(&self.sink);
                None
            },
            Action::Seek(target) => {
                let answer = sink_try_seek(&self.sink, target.as_secs(), target.subsec_nanos());
                seek_failure(answer)
            },
        };
        let mut player = self.player;
        player.complete(action, failure.is_none());
        self.player = player;
        Outcome { reading, action, failure }
    }

    /// Seeks forward by `distance` from the position read. The target is
    /// handed to the sink as it is, also where it lies beyond the end of the
    /// track.
    pub fn fast_forward(&mut self, distance: Span) -> (outcome: Outcome)
        ensures
            handles(old(self)@, Command::FastForward(distance@), outcome),
            outcome.action@ == Effect::Seek(
                fast_forward_position(outcome.reading.raw@, distance@),
            ),
            final(self)@ == settled(old(self)@, outcome),
            final(self)@.position <= final(self)@.total,
    {
        self.handle_messages(Message::FastForward(distance))
    }

    /// Seeks back by `distance` from the position read, but not beyond the
    /// start of the track.
    pub fn rewind(&mut self, distance: Span) -> (outcome: Outcome)
        ensures
            handles(old(self)@, Command::Rewind(distance@), outcome),
            outcome.action@ == Effect::Seek(rewind_position(outcome.reading.raw@, distance@)),
            final(self)@ == settled(old(self)@, outcome),
            final(self)@.position <= final(self)@.total,
    {
        self.handle_messages(Message::Rewind(distance))
    }

    /// Handles the commands one after the other, first sent first, each to
    /// the end before the next is looked at, and returns what became of
    /// each.
    pub fn handle_all(&mut self, messages: &Vec<Message>) -> (outcomes: Vec<Outcome>)
        ensures
            outcomes@.len() == messages@.len(),
            forall|i: int|
                0 <= i < messages@.len() ==> handles(
                    settled_all(old(self)@, outcomes@.take(i)),
                    (#[trigger] messages@[i])@,
                    outcomes@[i],
                ),
            final(self)@ == settled_all(old(self)@, outcomes@),
            old(self)@.state != PlaybackState::Uninitialized,
    {
        proof {
            use_type_invariant(&*self);
        }
        let ghost start = self@;
        let mut outcomes: Vec<Outcome> = Vec::new();
        let mut i: usize = 0;
        while i < messages.len()
            invariant
                i <= messages@.len(),
                outcomes@.len() == i,
                self@ == settled_all(start, outcomes@),
                forall|j: int|
                    0 <= j < i ==> handles(
                        settled_all(start, outcomes@.take(j)),
                        (#[trigger] messages@[j])@,
                        outcomes@[j],
                    ),
            decreases messages@.len() - i,
        {
            let ghost before = outcomes@;
            let outcome = self.handle_messages(messages[i]);
            outcomes.push(outcome);
            proof {
                assert(outcomes@.drop_last() =~= before);
                assert(outcomes@.take(i as int) =~= before);
                assert forall|j: int| 0 <= j < i implies outcomes@.take(j) == before.take(j) by {
                    assert(outcomes@.take(j) =~= before.take(j));
                }
            }
            i = i + 1;
        }
        proof {
            assert(outcomes@.take(i as int) =~= outcomes@);
        }
        outcomes
    }
}

/// A rewind hands the sink exactly one target: `distance` before the
/// position read, or the start of the track where that would lie before it.
/// If the sink accepts, the record follows the target, held within the
/// track; if it refuses, the record stays as the reading left it.
pub proof fn lemma_rewind_settles(s: Snapshot, distance: nat, outcome: Outcome)
    requires
        s.position <= s.total,
        s.state != PlaybackState::Uninitialized,
        handles(s, Command::Rewind(distance), outcome),
    ensures
        outcome.action@ == Effect::Seek(rewind_position(outcome.reading.raw@, distance)),
        distance <= outcome.reading.raw@ ==> outcome.action@ == Effect::Seek(
            (outcome.reading.raw@ - distance) as nat,
        ),
        distance > outcome.reading.raw@ ==> outcome.action@ == Effect::Seek(0),
        outcome.failure is None ==> settled(s, outcome).position == clamped_position(
            rewind_position(outcome.reading.raw@, distance),
            s.total,
        ),
        outcome.failure is Some ==> settled(s, outcome) == seen(s, outcome.reading),
        settled(s, outcome).state == seen(s, outcome.reading).state,
{
}

/// A fast-forward hands the sink exactly one target: `distance` ahead of
/// the position read, also where that lies beyond the end of the track. If
/// the sink accepts, the record follows the target as far as the end of the
/// track; if it refuses, the record stays as the reading left it.
pub proof fn lemma_fast_forward_settles(s: Snapshot, distance: nat, outcome: Outcome)
    requires
        s.position <= s.total,
        s.state != PlaybackState::Uninitialized,
        handles(s, Command::FastForward(distance), outcome),
    ensures
        outcome.action@ == Effect::Seek(fast_forward_position(outcome.reading.raw@, distance)),
        outcome.reading.raw@ + distance <= Span::max_nanos() ==> outcome.action@ == Effect::Seek(
            outcome.reading.raw@ + distance,
        ),
        outcome.failure is None ==> settled(s, outcome).position == clamped_position(
            fast_forward_position(outcome.reading.raw@, distance),
            s.total,
        ),
        outcome.failure is Some ==> settled(s, outcome) == seen(s, outcome.reading),
        settled(s, outcome).state == seen(s, outcome.reading).state,
{
}

/// However the sink answers, handled commands keep the position within the
/// track and the track's length as it was.
pub proof fn lemma_settled_within_track(s: Snapshot, outcomes: Seq<Outcome>)
    requires
        s.position <= s.total,
    ensures
        settled_all(s, outcomes).position <= s.total,
        settled_all(s, outcomes).total == s.total,
    decreases outcomes.len(),
{
    if outcomes.len() > 0 {
        lemma_settled_within_track(s, outcomes.drop_last());
    }
}

} // verus!
