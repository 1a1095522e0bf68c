use audio_player::playback::Message;
use audio_player::playback_buttons::PlaybackButtons;
use audio_player::span::Span;

#[test]
fn test_paused_btn() {
    assert_eq!(
        PlaybackButtons::handle_play_pause_click(PlaybackButtons::PLAY_BUTTON),
        (PlaybackButtons::PAUSE_BUTTON, Message::Play),
    );
}

#[test]
fn test_play_btn() {
    assert_eq!(
        PlaybackButtons::handle_play_pause_click(PlaybackButtons::PAUSE_BUTTON),
        (PlaybackButtons::PLAY_BUTTON, Message::Pause)
    );
}

#[test]
fn two_clicks_restore_the_label() {
    let (label, first) = PlaybackButtons::handle_play_pause_click(PlaybackButtons::initial_label());
    let (label, second) = PlaybackButtons::handle_play_pause_click(label);
    assert_eq!(label, PlaybackButtons::initial_label());
    assert_eq!((first, second), (Message::Pause, Message::Play));
}

#[test]
fn labels_are_the_icon_glyphs() {
    assert_eq!(PlaybackButtons::PLAY_BUTTON, "\u{f04b}");
    assert_eq!(PlaybackButtons::PAUSE_BUTTON, "\u{f04c}");
    assert_eq!(PlaybackButtons::initial_label(), PlaybackButtons::PAUSE_BUTTON);
    assert_ne!(PlaybackButtons::PLAY_BUTTON, PlaybackButtons::PAUSE_BUTTON);
}

#[test]
fn only_the_two_labels_are_known() {
    assert!(PlaybackButtons::is_play_pause_label(PlaybackButtons::PLAY_BUTTON));
    assert!(PlaybackButtons::is_play_pause_label(PlaybackButtons::PAUSE_BUTTON));
    assert!(!PlaybackButtons::is_play_pause_label(""));
    assert!(!PlaybackButtons::is_play_pause_label("play"));
    assert!(!PlaybackButtons::is_play_pause_label(PlaybackButtons::REWIND_BUTTON));
    assert!(!PlaybackButtons::is_play_pause_label(PlaybackButtons::FAST_FORWARD_BUTTON));
}

#[test]
fn seek_buttons_move_five_seconds() {
    assert_eq!(
        PlaybackButtons::fast_forward_message(),
        Message::FastForward(Span::from_secs(5))
    );
    assert_eq!(PlaybackButtons::rewind_message(), Message::Rewind(Span::from_secs(5)));
}

#[test]
fn buttons_stand_round_the_centre() {
    let buttons = PlaybackButtons::new(400);
    assert_eq!((buttons.play.x, buttons.play.y), (185, 200));
    assert_eq!((buttons.play.w, buttons.play.h), (30, 30));
    assert_eq!((buttons.fast_forward.x, buttons.fast_forward.y), (285, 200));
    assert_eq!((buttons.rewind.x, buttons.rewind.y), (85, 200));
    assert_eq!(buttons.rewind.w, 30);
    assert_eq!(buttons.fast_forward.h, 30);
}

#[test]
fn buttons_fit_every_window_width() {
    let widest = PlaybackButtons::new(i32::MAX);
    assert_eq!(widest.play.x, (i32::MAX - 30) / 2);
    assert_eq!(widest.fast_forward.x, (i32::MAX - 30) / 2 + 100);
    let least = PlaybackButtons::new(i32::MIN);
    assert_eq!(least.play.x, ((i32::MIN as i64 - 30) / 2) as i32);
    assert_eq!(least.rewind.x, least.play.x - 100);
    let narrow = PlaybackButtons::new(25);
    assert_eq!(narrow.play.x, -2);
}
