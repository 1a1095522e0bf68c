use audio_player::playback::Message;
use audio_player::progress_bar::ProgressBar;
use audio_player::span::Span;

fn default_bar() -> ProgressBar {
    ProgressBar::new(400, Span::from_millis(100))
}

#[test]
fn test_format_duration_minutes() {
    let duration = Span::from_secs(61);
    assert_eq!("1:01", ProgressBar::format_duration(duration));

    let duration = Span::from_secs(158);
    assert_eq!("2:38", ProgressBar::format_duration(duration));
}

#[test]
fn test_format_duration_hours() {
    let duration = Span::from_secs(3601);
    assert_eq!("1:00:01", ProgressBar::format_duration(duration));
}

#[test]
fn test_0_progress() {
    let progress = default_bar();

    assert_eq!(progress.knob_x(), 75);
}

#[test]
fn test_25_progress() {
    let mut progress = default_bar();
    progress.set_value(25);

    assert_eq!(progress.knob_x(), 137);
}

#[test]
fn test_50_progress() {
    let mut progress = default_bar();
    progress.set_value(50);

    assert_eq!(progress.knob_x(), 200);
}

#[test]
fn test_75_progress() {
    let mut progress = default_bar();
    progress.set_value(75);

    assert_eq!(progress.knob_x(), 262);
}

#[test]
fn test_100_progress() {
    let mut progress = default_bar();
    progress.set_value(100);

    assert_eq!(progress.knob_x(), 325);
}

#[test]
fn format_duration_zero_and_fractions() {
    assert_eq!("0:00", ProgressBar::format_duration(Span::zero()));
    assert_eq!("0:00", ProgressBar::format_duration(Span::from_millis(999)));
    assert_eq!("0:01", ProgressBar::format_duration(Span::from_millis(1999)));
    assert_eq!("0:59", ProgressBar::format_duration(Span::from_secs(59)));
    assert_eq!("1:00", ProgressBar::format_duration(Span::from_secs(60)));
    assert_eq!("59:59", ProgressBar::format_duration(Span::from_secs(3599)));
}

#[test]
fn format_duration_long_tracks() {
    assert_eq!("1:00:00", ProgressBar::format_duration(Span::from_secs(3600)));
    assert_eq!("10:10:10", ProgressBar::format_duration(Span::from_secs(36610)));
    assert_eq!("100:00:00", ProgressBar::format_duration(Span::from_secs(360_000)));
    assert_eq!(
        "5124095576030431:00:15",
        ProgressBar::format_duration(Span::from_secs(u64::MAX))
    );
}

#[test]
fn knob_is_linear_in_the_value() {
    let mut bar = ProgressBar::new(400, Span::from_secs(100));
    assert_eq!(bar.maximum(), 100_000);
    let mut value: u128 = 0;
    while value <= 100_000 {
        bar.set_value(value);
        let expected = 75 + (value * 250 / 100_000) as i32;
        assert_eq!(bar.knob_x(), expected);
        value += 1_000;
    }
}

#[test]
fn knob_rounds_down() {
    let mut bar = ProgressBar::new(400, Span::from_millis(3));
    bar.set_value(1);
    assert_eq!(bar.knob_x(), 75 + 83);
    bar.set_value(2);
    assert_eq!(bar.knob_x(), 75 + 166);
}

#[test]
fn knob_of_an_empty_track_stands_at_the_origin() {
    let mut bar = ProgressBar::new(400, Span::zero());
    assert_eq!(bar.knob_x(), 75);
    bar.set_value(10);
    assert_eq!(bar.value(), 0);
    assert_eq!(bar.knob_x(), 75);
}

#[test]
fn set_value_stops_at_the_maximum() {
    let mut bar = default_bar();
    bar.set_value(1_000);
    assert_eq!(bar.value(), 100);
    assert_eq!(bar.knob_x(), 325);
}

#[test]
fn knob_y_sits_two_above_the_bar() {
    assert_eq!(default_bar().knob_y(), 188);
}

#[test]
fn bar_is_centred_in_the_window() {
    let frame = ProgressBar::new(400, Span::from_secs(1)).frame();
    assert_eq!((frame.x, frame.y, frame.w, frame.h), (75, 190, 250, 5));
    let narrow = ProgressBar::new(100, Span::from_secs(1)).frame();
    assert_eq!(narrow.x, -75);
    let odd = ProgressBar::new(101, Span::from_secs(1)).frame();
    assert_eq!(odd.x, -74);
    let widest = ProgressBar::new(i32::MAX, Span::from_secs(1)).frame();
    assert_eq!(widest.x, (i32::MAX - 250) / 2);
    let least = ProgressBar::new(i32::MIN, Span::from_secs(1)).frame();
    assert_eq!(least.x, ((i32::MIN as i64 - 250) / 2) as i32);
}

#[test]
fn update_keeps_the_newest_sample() {
    let mut bar = ProgressBar::new(400, Span::from_secs(200));
    bar.update(&vec![Span::from_secs(1), Span::from_secs(7), Span::from_secs(3)]);
    assert_eq!(bar.current_audio_pos(), Span::from_secs(3));
    assert_eq!(bar.value(), 3_000);
    assert_eq!(bar.current_timestamp(), "0:03");
    assert_eq!(bar.total_timestamp(), "3:20");
}

#[test]
fn update_without_samples_keeps_the_position() {
    let mut bar = ProgressBar::new(400, Span::from_secs(200));
    bar.update(&vec![Span::from_secs(42)]);
    bar.update(&Vec::new());
    assert_eq!(bar.current_audio_pos(), Span::from_secs(42));
    assert_eq!(bar.value(), 42_000);
}

#[test]
fn update_clamps_to_the_track_length() {
    let mut bar = ProgressBar::new(400, Span::from_secs(200));
    bar.update(&vec![Span::from_secs(500)]);
    assert_eq!(bar.current_audio_pos(), Span::from_secs(200));
    assert_eq!(bar.value(), bar.maximum());
    assert_eq!(bar.knob_x(), 325);
}

#[test]
fn update_resets_a_value_set_by_hand() {
    let mut bar = default_bar();
    bar.set_value(25);
    bar.update(&Vec::new());
    assert_eq!(bar.value(), 0);
}

#[test]
fn click_ahead_sends_fast_forward() {
    let mut bar = ProgressBar::new(400, Span::from_secs(100));
    bar.update(&vec![Span::from_secs(10)]);
    // 125 pixels into a bar of 250: half of the track
    assert_eq!(bar.position_at(200), Span::from_secs(50));
    assert_eq!(bar.seek_message(200), Message::FastForward(Span::from_secs(40)));
}

#[test]
fn click_behind_sends_rewind() {
    let mut bar = ProgressBar::new(400, Span::from_secs(100));
    bar.update(&vec![Span::from_secs(80)]);
    assert_eq!(bar.seek_message(200), Message::Rewind(Span::from_secs(30)));
}

#[test]
fn click_on_the_position_sends_an_empty_rewind() {
    let mut bar = ProgressBar::new(400, Span::from_secs(100));
    bar.update(&vec![Span::from_secs(50)]);
    assert_eq!(bar.seek_message(200), Message::Rewind(Span::zero()));
}

#[test]
fn click_outside_the_bar_is_held_within_it() {
    let mut bar = ProgressBar::new(400, Span::from_secs(100));
    bar.update(&vec![Span::from_secs(50)]);
    assert_eq!(bar.position_at(0), Span::zero());
    assert_eq!(bar.position_at(i32::MIN), Span::zero());
    assert_eq!(bar.position_at(75), Span::zero());
    assert_eq!(bar.position_at(325), Span::from_secs(100));
    assert_eq!(bar.position_at(i32::MAX), Span::from_secs(100));
    assert_eq!(bar.seek_message(-5), Message::Rewind(Span::from_secs(50)));
    assert_eq!(bar.seek_message(1_000), Message::FastForward(Span::from_secs(50)));
}

#[test]
fn click_position_rounds_down_to_the_nanosecond() {
    let bar = ProgressBar::new(400, Span::from_nanos(1_000));
    // one pixel in: 1000 / 250 = 4 ns
    assert_eq!(bar.position_at(76), Span::from_nanos(4));
    let bar = ProgressBar::new(400, Span::from_nanos(1_001));
    assert_eq!(bar.position_at(76), Span::from_nanos(4));
    assert_eq!(bar.position_at(324), Span::from_nanos(996));
}

#[test]
fn click_on_the_longest_track() {
    let longest = Span::new(u64::MAX, 999_999_999);
    let bar = ProgressBar::new(400, longest);
    assert_eq!(bar.position_at(325), longest);
    assert_eq!(bar.seek_message(325), Message::FastForward(longest));
}
