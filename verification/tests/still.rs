use madamiru::gui::still::timestamps;
use madamiru::gui::still::{StillEvent, StillPlayer, StillUpdate};
use madamiru::resource::config::Playback;

#[test]
fn still_player_ticks_to_the_end() {
    let mut c = StillPlayer::new(10, false, false);
    assert_eq!(None, c.tick(4));
    assert_eq!(4, c.position);
    assert_eq!(Some(StillUpdate::EndOfStream), c.tick(6));
    assert_eq!(10, c.position);
}

#[test]
fn looping_still_player_starts_over() {
    let mut c = StillPlayer::new(10, false, false);
    c.looping = true;
    assert_eq!(None, c.tick(12));
    assert_eq!(0, c.position);
}

#[test]
fn paused_or_dragged_still_player_stays() {
    let mut c = StillPlayer::new(10, true, false);
    assert_eq!(None, c.tick(5));
    assert_eq!(0, c.position);
    c.paused = false;
    c.seek(30);
    assert_eq!(10, c.position);
    assert!(c.dragging);
    assert_eq!(Some(StillUpdate::EndOfStream), c.tick(1));
    c.seek_stop();
    assert!(!c.dragging);
    c.restart();
    assert_eq!(0, c.position);
}

#[test]
fn focus_round_trip() {
    let mut c = StillPlayer::new(10, false, false);
    c.window_unfocused(false);
    assert!(!c.paused);
    c.window_unfocused(true);
    assert!(c.paused && c.need_play_on_focus);
    c.window_focused();
    assert!(!c.paused && !c.need_play_on_focus);
}

#[test]
fn still_player_events() {
    let playback = Playback::default();
    let mut c = StillPlayer::new(10, false, false);
    assert_eq!(Some(StillUpdate::PauseChanged(true)), c.update(StillEvent::SetPause(true), &playback));
    assert!(c.paused);
    assert_eq!(Some(StillUpdate::MuteChanged), c.update(StillEvent::SetMute(true), &playback));
    assert!(c.muted);
    assert_eq!(None, c.update(StillEvent::SetLoop(true), &playback));
    assert!(c.looping);
    assert_eq!(
        Some(StillUpdate::PositionChanged { position: 10, duration: 10 }),
        c.update(StillEvent::Seek(99), &playback)
    );
    assert!(c.dragging);
    assert_eq!(None, c.update(StillEvent::SeekStop, &playback));
    assert!(!c.dragging);
    assert_eq!(None, c.update(StillEvent::MouseEnter, &playback));
    assert!(c.hovered);
    assert_eq!(None, c.update(StillEvent::MouseExit, &playback));
    assert!(!c.hovered);
    assert_eq!(Some(StillUpdate::Refresh), c.update(StillEvent::Refresh, &playback));
    assert_eq!(Some(StillUpdate::Close), c.update(StillEvent::Close, &playback));
    assert_eq!(Some(StillUpdate::EndOfStream), c.update(StillEvent::EndOfStream, &playback));
    assert_eq!(None, c.update(StillEvent::SetVolume, &playback));
    let before = c;
    assert_eq!(None, c.update(StillEvent::SeekRandom, &playback));
    assert_eq!(before, c);
}

#[test]
fn seeking_a_medium_without_length_reports_nothing() {
    let playback = Playback::default();
    let mut c = StillPlayer::new(0, false, false);
    assert_eq!(None, c.update(StillEvent::Seek(5), &playback));
    assert_eq!(0, c.position);
}

#[test]
fn losing_focus_follows_the_settings() {
    let mut c = StillPlayer::new(10, false, false);
    let keep = Playback::default();
    c.update(StillEvent::WindowUnfocused, &keep);
    assert!(!c.paused);
    let pause = Playback { pause_on_unfocus: true, ..Playback::default() };
    c.update(StillEvent::WindowUnfocused, &pause);
    assert!(c.paused);
    c.update(StillEvent::WindowFocused, &pause);
    assert!(!c.paused);
}

#[test]
fn timestamps_switch_to_hours_past_an_hour() {
    let s = 1_000_000_000u128;
    assert_eq!(("00:05".to_string(), "60:00".to_string()), timestamps(5 * s + 999, 3600 * s));
    assert_eq!(("00:00:05".to_string(), "01:00:01".to_string()), timestamps(5 * s, 3601 * s));
    assert_eq!(("00:00".to_string(), "00:00".to_string()), timestamps(0, 0));
}
