//! The command protocol and the playback worker's decisions.
//!
//! The worker is the only mutator of playback state. It takes one command
//! at a time, in the order in which they were sent, and turns each into at
//! most one action on the output device. Seeks are always absolute: the
//! target is computed here from the current position and the requested
//! distance. A rewind aims no further back than the start of the track. A
//! fast-forward aims at the sum as it is, also where that lies beyond the
//! end of the track: what becomes of such a seek is left to the device. The
//! worker's own record of the position never leaves the track.

use vstd::prelude::*;
use crate::span::Span;

verus! {

/// A playback intent, sent from a control to the worker.
#[derive(Clone, Copy, Debug, PartialEq, Eq, Structural)]
pub enum Message {
    Play,
    Pause,
    FastForward(Span),
    Rewind(Span),
}

/// What a `Message` asks for, with distances in nanoseconds.
pub enum Command {
    Play,
    Pause,
    FastForward(nat),
    Rewind(nat),
}

impl View for Message {
    type V = Command;

    open spec fn view(&self) -> Command {
        match *self {
            Message::Play => Command::Play,
            Message::Pause => Command::Pause,
            Message::FastForward(d) => Command::FastForward(d@),
            Message::Rewind(d) => Command::Rewind(d@),
        }
    }
}

/// Where the worker stands.
#[derive(Clone, Copy, Debug, PartialEq, Eq, Structural)]
pub enum PlaybackState {
    /// No source has been loaded yet.
    Uninitialized,
    Playing,
    Paused,
    /// The queue has run empty. Nothing leaves this state. A seek that
    /// arrives in it is still handed to the device; play and pause do
    /// nothing.
    Finished,
}

/// What the worker does to the output device for one command.
#[derive(Clone, Copy, Debug, PartialEq, Eq, Structural)]
pub enum Action {
    /// The command changes nothing.
    Nothing,
    /// Resume a paused sink.
    Resume,
    /// Pause a playing sink.
    Suspend,
    /// Seek to this absolute position.
    Seek(Span),
}

/// What an `Action` does, with the seek target in nanoseconds.
pub enum Effect {
    Nothing,
    Resume,
    Suspend,
    Seek(nat),
}

impl View for Action {
    type V = Effect;

    open spec fn view(&self) -> Effect {
        match *self {
            Action::Nothing => Effect::Nothing,
            Action::Resume => Effect::Resume,
            Action::Suspend => Effect::Suspend,
            Action::Seek(target) => Effect::Seek(target@),
        }
    }
}

/// The position that fast-forwarding by `distance` aims at: the sum, held
/// only at the longest span that can be written down.
pub open spec fn fast_forward_position(current: nat, distance: nat) -> nat {
    if current + distance <= Span::max_nanos() {
        current + distance
    } else {
        Span::max_nanos()
    }
}

/// The position that rewinding by `distance` aims at: the difference, held
/// at the start of the track.
pub open spec fn rewind_position(current: nat, distance: nat) -> nat {
    if distance <= current {
        (current - distance) as nat
    } else {
        0
    }
}

/// The position sample for a raw reading: the reading, held within the
/// track.
pub open spec fn clamped_position(raw: nat, total: nat) -> nat {
    if raw <= total {
        raw
    } else {
        total
    }
}

/// The action that a command calls for in a given state, with `position`
/// the position from which a seek sets out. Play resumes only what is
/// paused and pause suspends only what plays. A seek is called for in every
/// state but `Uninitialized`, where there is no device yet.
pub open spec fn effect_of(state: PlaybackState, position: nat, command: Command) -> Effect {
    match command {
        Command::Play => if state == PlaybackState::Paused {
            Effect::Resume
        } else {
            Effect::Nothing
        },
        Command::Pause => if state == PlaybackState::Playing {
            Effect::Suspend
        } else {
            Effect::Nothing
        },
        Command::FastForward(d) => if state == PlaybackState::Uninitialized {
            Effect::Nothing
        } else {
            Effect::Seek(fast_forward_position(position, d))
        },
        Command::Rewind(d) => if state == PlaybackState::Uninitialized {
            Effect::Nothing
        } else {
            Effect::Seek(rewind_position(position, d))
        },
    }
}

/// The target of a fast-forward by `distance` from `current`.
pub fn fast_forward_target(current: Span, distance: Span) -> (target: Span)
    ensures
        target@ == fast_forward_position(current@, distance@),
        current@ + distance@ <= Span::max_nanos() ==> target@ == current@ + distance@,
        current@ + distance@ > Span::max_nanos() ==> target@ == Span::max_nanos(),
        target@ >= current@,
{
    current.saturating_add(distance)
}

/// The target of a rewind by `distance` from `current`.
pub fn rewind_target(current: Span, distance: Span) -> (target: Span)
    ensures
        target@ == rewind_position(current@, distance@),
        distance@ <= current@ ==> target@ == current@ - distance@,
        distance@ > current@ ==> target@ == 0,
        target@ <= current@,
{
    current.saturating_sub(distance)
}

/// The position sample for a raw reading of the device.
pub fn clamp_position(raw: Span, total: Span) -> (sample: Span)
    ensures
        sample@ == clamped_position(raw@, total@),
        sample@ <= total@,
{
    raw.min(total)
}

/// The action for one command, from the state in which it arrives and the
/// position from which a seek sets out.
pub fn decide(state: PlaybackState, position: Span, message: Message) -> (action: Action)
    ensures
        action@ == effect_of(state, position@, message@),
{
    match message {
        Message::Play => if state == PlaybackState::Paused {
            Action::Resume
        } else {
            Action::Nothing
        },
        Message::Pause => if state == PlaybackState::Playing {
            Action::Suspend
        } else {
            Action::Nothing
        },
        Message::FastForward(d) => if state == PlaybackState::Uninitialized {
            Action::Nothing
        } else {
            Action::Seek(fast_forward_target(position, d))
        },
        Message::Rewind(d) => if state == PlaybackState::Uninitialized {
            Action::Nothing
        } else {
            Action::Seek(rewind_target(position, d))
        },
    }
}

/// A worker's state as the contracts see it.
pub struct Snapshot {
    pub state: PlaybackState,
    /// Nanoseconds played.
    pub position: nat,
    /// Length of the track in nanoseconds.
    pub total: nat,
}

/// The snapshot after an action has been carried out. Resuming changes
/// only a paused state and suspending only a playing one. After a seek the
/// position is the target, held within the track; a seek that the device
/// refused leaves everything as it was.
pub open spec fn after_action(s: Snapshot, effect: Effect, seek_done: bool) -> Snapshot {
    match effect {
        Effect::Nothing => s,
        Effect::Resume => if s.state == PlaybackState::Paused {
            Snapshot { state: PlaybackState::Playing, ..s }
        } else {
            s
        },
        Effect::Suspend => if s.state == PlaybackState::Playing {
            Snapshot { state: PlaybackState::Paused, ..s }
        } else {
            s
        },
        Effect::Seek(target) => if seek_done {
            Snapshot { position: clamped_position(target, s.total), ..s }
        } else {
            s
        },
    }
}

/// The snapshot after one command, on a device that carries out every seek.
pub open spec fn step(s: Snapshot, command: Command) -> Snapshot {
    after_action(s, effect_of(s.state, s.position, command), true)
}

/// The snapshot after a sequence of commands, each applied to what the one
/// before it left.
pub open spec fn run(s: Snapshot, commands: Seq<Command>) -> Snapshot
    decreases commands.len(),
{
    if commands.len() == 0 {
        s
    } else {
        step(run(s, commands.drop_last()), commands.last())
    }
}

/// The actions that a sequence of commands calls for, one for each command
/// and in the same order.
pub open spec fn effects(s: Snapshot, commands: Seq<Command>) -> Seq<Effect>
    decreases commands.len(),
{
    if commands.len() == 0 {
        Seq::<Effect>::empty()
    } else {
        let before = run(s, commands.drop_last());
        effects(s, commands.drop_last()).push(
            effect_of(before.state, before.position, commands.last()),
        )
    }
}

/// The snapshot after a reading of the device: the position is the reading
/// held within the track, and an empty queue ends playback.
pub open spec fn after_reading(s: Snapshot, raw: nat, queue_empty: bool) -> Snapshot {
    match s.state {
        PlaybackState::Uninitialized => s,
        PlaybackState::Finished => s,
        _ => Snapshot {
            state: if queue_empty { PlaybackState::Finished } else { s.state },
            position: clamped_position(raw, s.total),
            total: s.total,
        },
    }
}

/// The playback worker's own record of where it stands.
#[derive(Clone, Copy, Debug)]
pub struct Player {
    state: PlaybackState,
    position: Span,
    total: Span,
}

impl View for Player {
    type V = Snapshot;

    closed spec fn view(&self) -> Snapshot {
        Snapshot { state: self.state, position: self.position@, total: self.total@ }
    }
}

impl Player {
    #[verifier::type_invariant]
    closed spec fn inv(self) -> bool {
        self.position@ <= self.total@
    }

    /// A worker that has not loaded its source yet, for a track of length
    /// `total`.
    pub fn new(total: Span) -> (player: Player)
        ensures
            player@ == (Snapshot { state: PlaybackState::Uninitialized, position: 0, total: total@ }),
    {
        Player { state: PlaybackState::Uninitialized, position: Span::zero(), total }
    }

    /// The source has been loaded and appended: playback begins at once.
    /// In any other state than `Uninitialized` this changes nothing.
    pub fn start(&mut self)
        ensures
            final(self)@ == if old(self)@.state == PlaybackState::Uninitialized {
                Snapshot { state: PlaybackState::Playing, ..old(self)@ }
            } else {
                old(self)@
            },
    {
        proof {
            use_type_invariant(&*self);
        }
        if self.state == PlaybackState::Uninitialized {
            self.state = PlaybackState::Playing;
        }
    }

    /// The state in which the worker stands.
    pub fn state(&self) -> (state: PlaybackState)
        ensures
            state == self@.state,
    {
        self.state
    }

    /// The current position, which never lies beyond the track's end.
    pub fn position(&self) -> (position: Span)
        ensures
            position@ == self@.position,
            position@ <= self@.total,
    {
        proof {
            use_type_invariant(self);
        }
        self.position
    }

    /// The length of the track.
    pub fn total(&self) -> (total: Span)
        ensures
            total@ == self@.total,
    {
        self.total
    }

    /// The action that `message` calls for now, with a seek setting out from
    /// the position on record. Nothing changes yet.
    pub fn decide(&self, message: Message) -> (action: Action)
        ensures
            action@ == effect_of(self@.state, self@.position, message@),
    {
        decide(self.state, self.position, message)
    }

    /// Records that `action` has been carried out; `seek_done` says whether
    /// the device accepted the seek, and is not looked at for other actions.
    pub fn complete(&mut self, action: Action, seek_done: bool)
        ensures
            final(self)@ == after_action(old(self)@, action@, seek_done),
            final(self)@.position <= final(self)@.total,
    {
        proof {
            use_type_invariant(&*self);
        }
        match action {
            Action::Nothing => {},
            Action::Resume => {
                if self.state == PlaybackState::Paused {
                    self.state = PlaybackState::Playing;
                }
            },
            Action::Suspend => {
                if self.state == PlaybackState::Playing {
                    self.state = PlaybackState::Paused;
                }
            },
            Action::Seek(target) => {
                if seek_done {
                    self.position = clamp_position(target, self.total);
                }
            },
        }
    }

    /// Takes one command on a device that carries out every seek, and
    /// returns the action taken.
    pub fn handle(&mut self, message: Message) -> (action: Action)
        ensures
            action@ == effect_of(old(self)@.state, old(self)@.position, message@),
            final(self)@ == step(old(self)@, message@),
            final(self)@.position <= final(self)@.total,
            final(self)@.total == old(self)@.total,
    {
        proof {
            use_type_invariant(&*self);
        }
        let action = self.decide(message);
        self.complete(action, true);
        action
    }

    /// Takes the commands one after the other, first sent first, and
    /// returns the action taken for each.
    pub fn handle_all(&mut self, messages: &Vec<Message>) -> (actions: Vec<Action>)
        ensures
            final(self)@ == run(old(self)@, messages@.map_values(|m: Message| m@)),
            actions@.map_values(|a: Action| a@) == effects(
                old(self)@,
                messages@.map_values(|m: Message| m@),
            ),
            actions@.len() == messages@.len(),
    {
        let ghost start = self@;
        let ghost commands = messages@.map_values(|m: Message| m@);
        let mut actions: Vec<Action> = Vec::new();
        let mut i: usize = 0;
        proof {
            assert(commands.take(0) =~= Seq::<Command>::empty());
            assert(actions@.map_values(|a: Action| a@) =~= Seq::<Effect>::empty());
        }
        while i < messages.len()
            invariant
                i <= messages@.len(),
                commands == messages@.map_values(|m: Message| m@),
                self@ == run(start, commands.take(i as int)),
                actions@.len() == i,
                actions@.map_values(|a: Action| a@) == effects(start, commands.take(i as int)),
            decreases messages@.len() - i,
        {
            let ghost before = actions@.map_values(|a: Action| a@);
            let action = self.handle(messages[i]);
            actions.push(action);
            proof {
                let next = commands.take(i as int + 1);
                assert(next.drop_last() =~= commands.take(i as int));
                assert(next.last() == messages@[i as int]@);
                assert(actions@.map_values(|a: Action| a@) =~= before.push(action@));
            }
            i = i + 1;
        }
        proof {
            assert(commands.take(i as int) =~= commands);
        }
        actions
    }

    /// Takes a reading of the device: `raw` is the position it reports and
    /// `queue_empty` whether it has nothing left to play. Returns the
    /// position sample to hand on, which lies within the track.
    pub fn observe(&mut self, raw: Span, queue_empty: bool) -> (sample: Span)
        ensures
            final(self)@ == after_reading(old(self)@, raw@, queue_empty),
            sample@ == final(self)@.position,
            sample@ <= final(self)@.total,
    {
        proof {
            use_type_invariant(&*self);
        }
        match self.state {
            PlaybackState::Uninitialized => {},
            PlaybackState::Finished => {},
            _ => {
                self.position = clamp_position(raw, self.total);
                if queue_empty {
                    self.state = PlaybackState::Finished;
                }
            },
        }
        self.position
    }
}

/// Commands take effect strictly in the order sent: running a sequence is
/// running its first part and then, from where that left the worker, the
/// rest.
pub proof fn lemma_run_in_order(s: Snapshot, first: Seq<Command>, rest: Seq<Command>)
    ensures
        run(s, first + rest) == run(run(s, first), rest),
    decreases rest.len(),
{
    if rest.len() == 0 {
        assert(first + rest =~= first);
    } else {
        assert((first + rest).drop_last() =~= first + rest.drop_last());
        assert((first + rest).last() == rest.last());
        lemma_run_in_order(s, first, rest.drop_last());
    }
}

/// Running a single command is taking one step.
pub proof fn lemma_run_one(s: Snapshot, command: Command)
    ensures
        run(s, seq![command]) == step(s, command),
{
    assert(seq![command].drop_last() =~= Seq::<Command>::empty());
    assert(run(s, seq![command].drop_last()) == s);
}

/// The actions of a sequence are those of its first part followed by those
/// that the rest calls for from where the first part left the worker.
pub proof fn lemma_effects_in_order(s: Snapshot, first: Seq<Command>, rest: Seq<Command>)
    ensures
        effects(s, first + rest) == effects(s, first) + effects(run(s, first), rest),
        effects(s, first).len() == first.len(),
    decreases rest.len(),
{
    lemma_effects_len(s, first);
    if rest.len() == 0 {
        assert(first + rest =~= first);
        assert(effects(s, first) + effects(run(s, first), rest) =~= effects(s, first));
    } else {
        assert((first + rest).drop_last() =~= first + rest.drop_last());
        assert((first + rest).last() == rest.last());
        lemma_effects_in_order(s, first, rest.drop_last());
        lemma_run_in_order(s, first, rest.drop_last());
        assert(effects(s, first + rest) =~= effects(s, first) + effects(run(s, first), rest));
    }
}

/// Every command gets exactly one action.
pub proof fn lemma_effects_len(s: Snapshot, commands: Seq<Command>)
    ensures
        effects(s, commands).len() == commands.len(),
    decreases commands.len(),
{
    if commands.len() > 0 {
        lemma_effects_len(s, commands.drop_last());
    }
}

/// A rewind aims exactly `distance` before the position where that is no
/// more than the position, and at the start of the track where it is more.
/// The position on record follows the target, so it does not grow and never
/// becomes negative. This holds in every state in which there is a device.
pub proof fn lemma_rewind(s: Snapshot, distance: nat)
    requires
        s.state != PlaybackState::Uninitialized,
        s.position <= s.total,
    ensures
        distance <= s.position ==> effect_of(s.state, s.position, Command::Rewind(distance))
            == Effect::Seek((s.position - distance) as nat),
        distance > s.position ==> effect_of(s.state, s.position, Command::Rewind(distance))
            == Effect::Seek(0),
        distance <= s.position ==> step(s, Command::Rewind(distance)).position == s.position - distance,
        distance > s.position ==> step(s, Command::Rewind(distance)).position == 0,
        step(s, Command::Rewind(distance)).state == s.state,
{
}

/// A fast-forward aims exactly `distance` ahead of the position, also where
/// that lies beyond the end of the track. The position on record follows the
/// target as far as the end of the track and no further.
pub proof fn lemma_fast_forward(s: Snapshot, distance: nat)
    requires
        s.state != PlaybackState::Uninitialized,
        s.position <= s.total,
        s.position + distance <= Span::max_nanos(),
    ensures
        effect_of(s.state, s.position, Command::FastForward(distance)) == Effect::Seek(
            s.position + distance,
        ),
        s.position + distance <= s.total ==> step(s, Command::FastForward(distance)).position
            == s.position + distance,
        s.position + distance > s.total ==> step(s, Command::FastForward(distance)).position
            == s.total,
        step(s, Command::FastForward(distance)).state == s.state,
{
}

/// No run of commands moves the position out of the track.
pub proof fn lemma_position_within_track(s: Snapshot, commands: Seq<Command>)
    requires
        s.position <= s.total,
    ensures
        run(s, commands).position <= s.total,
        run(s, commands).total == s.total,
    decreases commands.len(),
{
    if commands.len() > 0 {
        lemma_position_within_track(s, commands.drop_last());
    }
}

/// Nothing leaves `Finished`, whatever commands arrive there.
pub proof fn lemma_finished_is_terminal(s: Snapshot, commands: Seq<Command>)
    requires
        s.state == PlaybackState::Finished,
    ensures
        run(s, commands).state == PlaybackState::Finished,
    decreases commands.len(),
{
    if commands.len() > 0 {
        lemma_finished_is_terminal(s, commands.drop_last());
    }
}

} // verus!
