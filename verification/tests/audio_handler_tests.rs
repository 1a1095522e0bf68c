use audio_player::audio_handler::{
    after_send, seek_failure, AudioHandler, Outcome, Reading, ReporterStep, SeekFailure,
};
use audio_player::playback::{clamp_position, Action, Message, PlaybackState};
use audio_player::span::Span;
use rodio::buffer::SamplesBuffer;
use rodio::queue::SourcesQueueOutput;
use rodio::source::{SeekError, Zero};
use rodio::Sink;

/// A handler on a sink with nothing in its queue.
fn idle_handler(total_secs: u64) -> AudioHandler {
    let (sink, _output) = Sink::new();
    AudioHandler::new(sink, Span::from_secs(total_secs))
}

/// A handler on a sink with a sound in its queue that nobody plays.
fn loaded_handler(total_secs: u64) -> AudioHandler {
    let (sink, _output) = Sink::new();
    sink.append(SamplesBuffer::new(1, 44_100, vec![0.0f32; 4_410]));
    AudioHandler::new(sink, Span::from_secs(total_secs))
}

/// A handler on a sink with an endless sound in its queue, and the output
/// from which the sound is played by taking samples.
fn played_handler(total_secs: u64) -> (AudioHandler, SourcesQueueOutput) {
    let (sink, output) = Sink::new();
    sink.append(Zero::new(1, 44_100));
    (AudioHandler::new(sink, Span::from_secs(total_secs)), output)
}

fn play(output: &mut SourcesQueueOutput, samples: usize) {
    for _ in 0..samples {
        output.next();
    }
}

#[test]
fn reporter_stops_when_its_consumer_is_gone() {
    assert_eq!(after_send(true), ReporterStep::Continue);
    assert_eq!(after_send(false), ReporterStep::Stop);
}

#[test]
fn reporter_loop_ends_after_the_first_failed_send() {
    let (sender, receiver) = std::sync::mpsc::channel::<Span>();
    let mut handler = idle_handler(10);
    assert_eq!(after_send(sender.send(handler.sample()).is_ok()), ReporterStep::Continue);
    assert_eq!(receiver.recv().unwrap(), Span::zero());
    drop(receiver);
    let mut rounds = 0;
    loop {
        rounds += 1;
        if after_send(sender.send(handler.sample()).is_ok()) == ReporterStep::Stop {
            break;
        }
        assert!(rounds < 3);
    }
    assert_eq!(rounds, 1);
}

#[test]
fn seek_answers_map_to_failures() {
    assert_eq!(seek_failure(Ok(())), None);
    assert_eq!(
        seek_failure(Err(SeekError::NotSupported { underlying_source: "a source" })),
        Some(SeekFailure::NotSupported)
    );
    let other: Box<dyn std::error::Error + Send> = Box::new(std::fmt::Error);
    assert_eq!(seek_failure(Err(SeekError::Other(other))), Some(SeekFailure::Failed));
}

#[test]
fn playback_has_begun_when_the_handler_takes_over() {
    let handler = loaded_handler(10);
    assert_eq!(handler.state(), PlaybackState::Playing);
    assert_eq!(handler.position(), Span::zero());
    assert_eq!(handler.total(), Span::from_secs(10));
}

#[test]
fn an_empty_sink_has_finished() {
    let mut handler = idle_handler(10);
    let reading = handler.read();
    assert!(reading.queue_empty);
    assert_eq!(reading.raw, Span::zero());
    assert_eq!(handler.state(), PlaybackState::Finished);
    assert_eq!(handler.sample(), Span::zero());
    for message in [Message::Play, Message::Pause] {
        let outcome = handler.handle_messages(message);
        assert!(outcome.reading.queue_empty);
        assert_eq!(outcome.action, Action::Nothing);
        assert_eq!(outcome.failure, None);
        assert_eq!(outcome.position_to_show(), None);
        assert_eq!(handler.state(), PlaybackState::Finished);
        assert_eq!(handler.position(), Span::zero());
    }
}

#[test]
fn the_first_command_finds_an_empty_sink_finished() {
    let mut handler = idle_handler(10);
    let outcome = handler.handle_messages(Message::Pause);
    assert_eq!(outcome.action, Action::Nothing);
    assert_eq!(handler.state(), PlaybackState::Finished);
}

#[test]
fn seeks_are_handed_to_an_empty_sink() {
    let mut handler = idle_handler(10);

    let outcome = handler.handle_messages(Message::FastForward(Span::from_secs(4)));
    assert!(outcome.reading.queue_empty);
    assert_eq!(outcome.reading.raw, Span::zero());
    assert_eq!(outcome.action, Action::Seek(Span::from_secs(4)));
    assert_eq!(outcome.failure, None);
    assert_eq!(outcome.position_to_show(), Some(Span::from_secs(4)));
    assert_eq!(handler.position(), Span::from_secs(4));
    assert_eq!(handler.state(), PlaybackState::Finished);

    // the target sets out from the position read, not from the record
    let outcome = handler.fast_forward(Span::from_secs(50));
    assert_eq!(outcome.action, Action::Seek(Span::from_secs(50)));
    assert_eq!(outcome.failure, None);
    assert_eq!(handler.position(), Span::from_secs(10));

    let outcome = handler.rewind(Span::from_secs(3));
    assert_eq!(outcome.reading.raw, Span::zero());
    assert_eq!(outcome.action, Action::Seek(Span::zero()));
    assert_eq!(outcome.failure, None);
    assert_eq!(handler.position(), Span::zero());
    assert_eq!(handler.state(), PlaybackState::Finished);
}

#[test]
fn seeks_are_handed_to_a_sink_that_has_played_out() {
    let (sink, mut output) = Sink::new();
    // half a second of sound at 44.1 kHz
    sink.append(SamplesBuffer::new(1, 44_100, vec![0.25f32; 22_050]));
    let total = Span::from_millis(500);
    let mut handler = AudioHandler::new(sink, total);

    play(&mut output, 11_025);
    let reading = handler.read();
    assert!(!reading.queue_empty);
    assert_eq!(handler.state(), PlaybackState::Playing);

    play(&mut output, 44_100);
    let outcome = handler.handle_messages(Message::FastForward(Span::from_secs(10)));
    assert!(outcome.reading.queue_empty);
    assert_eq!(
        outcome.action,
        Action::Seek(outcome.reading.raw.saturating_add(Span::from_secs(10)))
    );
    assert_eq!(outcome.failure, None);
    assert_eq!(handler.position(), total);
    assert_eq!(handler.state(), PlaybackState::Finished);

    let outcome = handler.handle_messages(Message::Rewind(Span::from_millis(100)));
    assert_eq!(
        outcome.action,
        Action::Seek(outcome.reading.raw.saturating_sub(Span::from_millis(100)))
    );
    assert_eq!(outcome.failure, None);
    assert_eq!(handler.state(), PlaybackState::Finished);
}

#[test]
fn only_an_accepted_seek_is_shown_at_once() {
    let reading = Reading { raw: Span::from_secs(1), queue_empty: false };
    let target = Span::from_secs(6);
    let shown = |action, failure| Outcome { reading, action, failure }.position_to_show();
    assert_eq!(shown(Action::Seek(target), None), Some(target));
    assert_eq!(shown(Action::Seek(target), Some(SeekFailure::NotSupported)), None);
    assert_eq!(shown(Action::Seek(target), Some(SeekFailure::Failed)), None);
    assert_eq!(shown(Action::Nothing, None), None);
    assert_eq!(shown(Action::Resume, None), None);
    assert_eq!(shown(Action::Suspend, None), None);
    assert_eq!(shown(Action::Suspend, Some(SeekFailure::Failed)), None);
}

#[test]
fn pause_and_play_change_the_state() {
    let mut handler = loaded_handler(10);

    let outcome = handler.handle_messages(Message::Play);
    assert_eq!(outcome.action, Action::Nothing);
    assert!(!outcome.reading.queue_empty);
    assert_eq!(handler.state(), PlaybackState::Playing);

    let outcome = handler.handle_messages(Message::Pause);
    assert_eq!(outcome.action, Action::Suspend);
    assert_eq!(handler.state(), PlaybackState::Paused);

    let outcome = handler.handle_messages(Message::Pause);
    assert_eq!(outcome.action, Action::Nothing);
    assert_eq!(handler.state(), PlaybackState::Paused);

    let outcome = handler.handle_messages(Message::Play);
    assert_eq!(outcome.action, Action::Resume);
    assert_eq!(outcome.failure, None);
    assert_eq!(handler.state(), PlaybackState::Playing);
}

#[test]
fn pause_play_pause_in_order_leaves_the_sink_paused() {
    let mut handler = loaded_handler(10);
    let (sender, receiver) = std::sync::mpsc::channel::<Message>();
    let second = sender.clone();
    sender.send(Message::Pause).unwrap();
    second.send(Message::Play).unwrap();
    sender.send(Message::Pause).unwrap();
    drop(sender);
    drop(second);
    let mut actions = Vec::new();
    while let Ok(message) = receiver.recv() {
        actions.push(handler.handle_messages(message).action);
    }
    assert_eq!(actions, vec![Action::Suspend, Action::Resume, Action::Suspend]);
    assert_eq!(handler.state(), PlaybackState::Paused);
}

#[test]
fn a_batch_is_handled_in_order() {
    let mut handler = loaded_handler(10);
    let outcomes = handler.handle_all(&vec![
        Message::Pause,
        Message::Pause,
        Message::Play,
        Message::Play,
        Message::Pause,
    ]);
    let actions: Vec<Action> = outcomes.iter().map(|outcome| outcome.action).collect();
    assert_eq!(
        actions,
        vec![
            Action::Suspend,
            Action::Nothing,
            Action::Resume,
            Action::Nothing,
            Action::Suspend
        ]
    );
    assert_eq!(handler.state(), PlaybackState::Paused);
    assert_eq!(handler.handle_all(&Vec::new()).len(), 0);
    assert_eq!(handler.state(), PlaybackState::Paused);
}

#[test]
fn samples_follow_the_sink() {
    let (mut handler, mut output) = played_handler(60);
    assert_eq!(handler.sample(), Span::zero());

    // two seconds of sound at 44.1 kHz
    play(&mut output, 88_200);
    let sample = handler.sample();
    assert!(Span::from_secs(1).is_at_most(sample));
    assert!(sample.is_at_most(Span::from_secs(2)));
    assert_eq!(handler.position(), sample);
    assert_eq!(handler.state(), PlaybackState::Playing);

    play(&mut output, 88_200);
    let later = handler.sample();
    assert!(sample.is_at_most(later));
    assert_ne!(sample, later);
    assert!(later.is_at_most(Span::from_secs(4)));
}

#[test]
fn samples_stop_at_the_end_of_the_track() {
    let (mut handler, mut output) = played_handler(1);
    play(&mut output, 3 * 44_100);
    let reading = handler.read();
    assert!(Span::from_secs(2).is_at_most(reading.raw));
    assert!(!reading.queue_empty);
    assert_eq!(handler.position(), Span::from_secs(1));
    assert_eq!(handler.sample(), Span::from_secs(1));
}

#[test]
fn a_paused_sink_stays_where_it_is() {
    let (mut handler, mut output) = played_handler(60);
    play(&mut output, 44_100);
    assert_eq!(handler.handle_messages(Message::Pause).action, Action::Suspend);
    play(&mut output, 1_000);
    let paused_at = handler.sample();
    play(&mut output, 88_200);
    assert_eq!(handler.sample(), paused_at);
    assert_eq!(handler.state(), PlaybackState::Paused);

    assert_eq!(handler.handle_messages(Message::Play).action, Action::Resume);
    play(&mut output, 88_200);
    let resumed = handler.sample();
    assert!(paused_at.is_at_most(resumed));
    assert_ne!(paused_at, resumed);
}

#[test]
fn the_position_read_is_the_one_decided_on() {
    let (mut handler, mut output) = played_handler(60);
    play(&mut output, 88_200);
    let outcome = handler.handle_messages(Message::Pause);
    assert_eq!(
        handler.position(),
        clamp_position(outcome.reading.raw, Span::from_secs(60))
    );
    assert!(Span::from_secs(1).is_at_most(outcome.reading.raw));
}
