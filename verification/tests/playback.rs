use madamiru::resource::config::updated_playback;
use madamiru::resource::config::{Playback, Release, Theme, FULL_VOLUME_BITS};

#[test]
fn playback_defaults() {
    let p = Playback::default();
    assert!(!p.paused);
    assert!(!p.muted);
    assert_eq!(1.0f32.to_bits(), p.volume_bits);
    assert_eq!(FULL_VOLUME_BITS, p.volume_bits);
    assert_eq!(10, p.image_duration.get());
    assert!(!p.pause_on_unfocus);
    assert!(!p.synchronized);
    assert!(Release::default().check);
    assert_eq!(Theme::Dark, Theme::default());
}

#[test]
fn playback_changes_one_setting_at_a_time() {
    let p = Playback::default();
    assert!(p.with_paused(true).paused);
    assert_eq!(Playback { paused: true, ..p }, p.with_paused_maybe(Some(true)));
    assert_eq!(p, p.with_paused_maybe(None));
    assert_eq!(Playback { muted: true, ..p }, p.with_muted(true));
    assert_eq!(p.with_muted(true), p.with_muted(true).with_muted_maybe(None));
    assert_eq!(Playback { muted: false, ..p }, p.with_muted(true).with_muted_maybe(Some(false)));
    assert_eq!(Playback { synchronized: true, ..p }, p.with_synchronized(true));
}

#[test]
fn players_report_pausing_and_muting() {
    let p = Playback::default();
    let (next, save) = updated_playback(&p, Some(true), None);
    assert!(next.paused && !next.muted);
    assert!(!save);
    let (next, save) = updated_playback(&p, None, Some(true));
    assert!(!next.paused && next.muted);
    assert!(save);
    let (next, save) = updated_playback(&p, Some(false), Some(false));
    assert_eq!(p, next);
    assert!(!save);
}
