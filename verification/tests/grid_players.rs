use madamiru::gui::grid::Settings;
use madamiru::gui::players::{Grid, GridPlayer};
use madamiru::gui::still::{PlaceholderPlayer, StillPlayer, StillUpdate};
use madamiru::media::Source;
use madamiru::path::StrictPath;
use madamiru::prelude::Change;
use madamiru::resource::config::Playback;

fn src(raw: &str) -> Source {
    Source::new_path(StrictPath::new(raw.to_string()))
}

fn idle() -> GridPlayer {
    GridPlayer::Placeholder(PlaceholderPlayer::Idle { hovered: false })
}

#[test]
fn new_grids_and_settings() {
    assert!(Grid::new(Settings::default()).is_idle());
    let g = Grid::new(Settings::default().with_source(src("a")));
    assert_eq!(vec![idle()], g.players);
    let mut g = Grid::new_with_players(Settings::default(), 0);
    assert_eq!(Change::Same, g.set_settings(Settings::default()));
    assert!(g.is_idle());
    assert_eq!(Change::Different, g.set_settings(Settings::default().with_source(src("a"))));
    assert_eq!(vec![idle()], g.players);
    assert_eq!(vec![src("a")], g.settings().sources);
    assert_eq!(vec![0, 1, 2], Grid::new_with_players(Settings::default(), 3).player_ids());
}

#[test]
fn ticking_reports_ended_players_from_the_last() {
    let mut g = Grid::new_with_players(Settings::default(), 0);
    g.players = vec![
        GridPlayer::Still(StillPlayer::new(5, false, false)),
        idle(),
        GridPlayer::Still(StillPlayer::new(100, false, false)),
        GridPlayer::Still(StillPlayer::new(3, false, true)),
    ];
    assert_eq!(vec![3, 0], g.tick(10));
    assert_eq!(idle(), g.players[1]);
    match g.players[2] {
        GridPlayer::Still(s) => assert_eq!(10, s.position),
        _ => panic!("expected a still player"),
    }
    g.restart(0);
    match g.players[0] {
        GridPlayer::Still(s) => assert_eq!(0, s.position),
        _ => panic!("expected a still player"),
    }
    assert_eq!(Some(false), g.all_paused());
    assert_eq!(Some(false), g.all_muted());
    let pb = g.playback(&Playback { paused: true, ..Playback::default() });
    assert!(!pb.paused);
    g.remove(1);
    assert_eq!(3, g.total_players());
}

#[test]
fn paused_player_near_the_limit_still_ticks() {
    let mut p = StillPlayer::new(10, true, false);
    p.position = 18446744073709551615999999999;
    assert_eq!(Some(StillUpdate::EndOfStream), p.tick(5));
    let mut idle_player = PlaceholderPlayer::Idle { hovered: true };
    assert_eq!(None, idle_player.tick(5));
    assert_eq!(PlaceholderPlayer::Idle { hovered: true }, idle_player);
}

#[test]
fn loading_an_image() {
    let pb = Playback::default();
    assert_eq!(Ok(StillPlayer::for_image(&pb)), StillPlayer::load_image(Ok(()), &pb));
    assert_eq!(
        Err(PlaceholderPlayer::Error { message: "bad".to_string(), hovered: false }),
        StillPlayer::load_image(Err("bad".to_string()), &pb)
    );
}
