use madamiru::gui::app_state::{app_step, AppAction, AppEvent, AppModal, AppState};
use madamiru::gui::grid::Settings;
use madamiru::gui::grid_settings::{
    EditAction, GridSettingsEditor, GridSettingsEvent, GridSettingsUpdate, MoveDirection,
};
use madamiru::gui::kinds::GridTab;
use madamiru::gui::startup::{startup, StartLayout};
use madamiru::gui::still::{PlaceholderPlayer, StillEvent, StillPlayer, StillUpdate};
use madamiru::media::{Source, SourceKind};
use madamiru::path::StrictPath;
use madamiru::prelude::Error;
use madamiru::resource::config::{Playback, Theme};
use madamiru::resource::playlist::{Layout, NonZeroCount, OrientationLimit, Playlist, SplitAxis};

fn src(raw: &str) -> Source {
    Source::new_path(StrictPath::new(raw.to_string()))
}

fn state(dirty: bool) -> AppState {
    AppState {
        playlist_dirty: dirty,
        playlist_path: None,
        confirm_discard_playlist: true,
        modals: vec![],
        viewing_pane_controls: Some(3),
        viewing_menu: false,
        dragging_pane: false,
        playback: Playback::default(),
        theme: Theme::Dark,
        check_release: true,
        image_duration_raw: "10".to_string(),
    }
}

#[test]
fn exit_asks_before_discarding_a_dirty_playlist() {
    let (s, actions) = app_step(state(true), AppEvent::Exit { force: false });
    assert_eq!(vec![AppModal::ConfirmDiscardPlaylist { exit: true }], s.modals);
    assert_eq!(None, s.viewing_pane_controls);
    assert!(actions.is_empty());
    let (_, actions) = app_step(s, AppEvent::Exit { force: true });
    assert_eq!(vec![AppAction::PauseAllAndExit], actions);
    let (_, actions) = app_step(state(false), AppEvent::Exit { force: false });
    assert_eq!(vec![AppAction::PauseAllAndExit], actions);
}

#[test]
fn playlist_lifecycle() {
    let (s, actions) = app_step(state(true), AppEvent::PlaylistReset { force: true });
    assert!(!s.playlist_dirty);
    assert_eq!(vec![AppAction::ResetGrids], actions);
    let path = StrictPath::new("/lists/a.madamiru".to_string());
    let (s, actions) = app_step(s, AppEvent::PlaylistLoad(path.clone()));
    assert_eq!(vec![AppAction::LoadPlaylist(path.clone())], actions);
    let (s, _) = app_step(s, AppEvent::PlaylistLoaded { path: path.clone(), result: Ok(()) });
    assert_eq!(Some(path.clone()), s.playlist_path);
    let (s, _) = app_step(s, AppEvent::PaneResized);
    assert!(s.playlist_dirty);
    let (s, actions) = app_step(s, AppEvent::PlaylistSave);
    assert_eq!(vec![AppAction::SavePlaylist { renamed: false }], actions);
    let (s, _) = app_step(s, AppEvent::PlaylistSaved { result: Ok(()), renamed: false });
    assert!(!s.playlist_dirty);
    let err = Error::UnableToSavePlaylist { why: "full".to_string() };
    let (s, _) = app_step(s, AppEvent::PlaylistSaved { result: Err(err.clone()), renamed: true });
    assert_eq!(vec![AppModal::Error(err)], s.modals);
    let (s, _) = app_step(s, AppEvent::CloseModal);
    assert!(s.modals.is_empty());
    let other = StrictPath::new("/lists/b.madamiru".to_string());
    let (s, actions) = app_step(s, AppEvent::PlaylistSavedAs(other.clone()));
    assert_eq!(Some(other), s.playlist_path);
    assert_eq!(vec![AppAction::SavePlaylist { renamed: true }], actions);
    let (_, actions) = app_step(s, AppEvent::PlaylistSaved { result: Ok(()), renamed: true });
    assert_eq!(vec![AppAction::FindPlaceholderMedia], actions);
}

#[test]
fn settings_edits_are_saved() {
    let (s, actions) = app_step(state(false), AppEvent::ImageDurationRaw("7".to_string()));
    assert_eq!(7, s.playback.image_duration.get());
    assert_eq!(vec![AppAction::SaveConfig], actions);
    let (s, _) = app_step(s, AppEvent::ImageDurationRaw("x".to_string()));
    assert_eq!(7, s.playback.image_duration.get());
    assert_eq!("x", s.image_duration_raw);
    let (s, _) = app_step(s, AppEvent::ShowSettings);
    let (s, _) = app_step(s, AppEvent::CloseModal);
    assert_eq!("7", s.image_duration_raw);
    let (s, _) = app_step(s, AppEvent::SetTheme(Theme::Light));
    assert_eq!(Theme::Light, s.theme);
}

#[test]
fn panes_and_controls() {
    let (s, actions) = app_step(state(false), AppEvent::SplitGrid { grid: 1, axis: SplitAxis::Vertical });
    assert_eq!(vec![AppAction::SplitGrid { grid: 1, axis: SplitAxis::Vertical }], actions);
    let (s, _) = app_step(s, AppEvent::GridSplit { new_grid: 2, origin_idle: false });
    assert!(s.playlist_dirty);
    assert_eq!(vec![AppModal::GridSettings { grid: 2 }], s.modals);
    let (s, _) = app_step(s, AppEvent::ShowControls { grid: 4 });
    assert_eq!(Some(4), s.viewing_pane_controls);
    let (s, _) = app_step(s, AppEvent::ShowControls { grid: 4 });
    assert_eq!(None, s.viewing_pane_controls);
    let (s, _) = app_step(s, AppEvent::ShowMenu(None));
    assert!(s.viewing_menu);
    let (s, _) = app_step(s, AppEvent::PaneDragPicked);
    assert!(s.dragging_pane);
    let (s, _) = app_step(s, AppEvent::PaneDragCanceled);
    assert!(!s.dragging_pane);
}

#[test]
fn starting_with_sources_or_a_playlist() {
    let started = startup(vec![src("a"), src("b")], None, None);
    assert!(started.playlist_dirty && !started.edit_first_grid);
    assert_eq!(Some(vec![src("a"), src("b")]), started.find_media);
    let started = startup(vec![], None, Some(Error::ConfigInvalid { why: "bad".to_string() }));
    assert!(!started.playlist_dirty && started.edit_first_grid);
    assert_eq!(1, started.errors.len());
    let pl = Playlist::new(Layout::Group(madamiru::resource::playlist::Group {
        sources: vec![src("x"), src("x")],
        ..Default::default()
    }));
    let started = startup(vec![src("/l.madamiru")], Some(Ok(pl)), None);
    assert_eq!(Some(StrictPath::new("/l.madamiru".to_string())), started.playlist_path);
    assert_eq!(Some(vec![src("x")]), started.find_media);
    assert!(matches!(started.layout, StartLayout::Playlist(_)));
    let err = Error::PlaylistInvalid { why: "yaml".to_string() };
    let started = startup(vec![src("/l.madamiru")], Some(Err(err.clone())), None);
    assert_eq!(None, started.playlist_path);
    assert_eq!(vec![err], started.errors);
    assert!(started.find_media.is_none());
}

#[test]
fn editing_grid_settings() {
    let mut e = GridSettingsEditor::new(Settings::default());
    assert_eq!(vec![Source::default()], e.settings.sources);
    assert_eq!("4", e.raw_limit);
    assert_eq!(GridTab::Sources, e.tab);
    let add = GridSettingsEvent::EditedSource { action: EditAction::Add };
    assert_eq!(Some(GridSettingsUpdate::ScrollDown), e.update(add));
    e.update(GridSettingsEvent::EditedSource { action: EditAction::Change(1, "b".to_string()) });
    e.update(GridSettingsEvent::EditedSource { action: EditAction::Move(1, MoveDirection::Up) });
    assert_eq!(vec![src("b"), Source::default()], e.settings.sources);
    e.update(GridSettingsEvent::EditedSourceKind { index: 0, kind: SourceKind::Glob });
    assert_eq!(Source::Glob { pattern: "b".to_string() }, e.settings.sources[0]);
    e.update(GridSettingsEvent::EditedGridOrientationLimitKind { fixed: true });
    assert_eq!(OrientationLimit::Fixed(NonZeroCount::new(4).unwrap()), e.settings.orientation_limit);
    e.update(GridSettingsEvent::EditedGridOrientationLimit { raw_limit: "6".to_string() });
    assert_eq!(OrientationLimit::Fixed(NonZeroCount::new(6).unwrap()), e.settings.orientation_limit);
    assert_eq!(Some(GridSettingsUpdate::Saved), e.update(GridSettingsEvent::Save));
    assert_eq!(vec![Source::Glob { pattern: "b".to_string() }], e.settings.sources);
    e.update(GridSettingsEvent::EditedSource { action: EditAction::Remove(0) });
    assert!(e.settings.sources.is_empty());
}

#[test]
fn images_and_placeholders() {
    let p = Playback { paused: true, ..Playback::default() };
    let image = StillPlayer::for_image(&p);
    assert_eq!(10_000_000_000, image.duration);
    assert!(image.paused && !image.muted);
    let mut idle = PlaceholderPlayer::Idle { hovered: false };
    assert_eq!(None, idle.update(StillEvent::MouseEnter));
    assert!(idle.is_hovered());
    assert_eq!(None, idle.update(StillEvent::Refresh));
    assert_eq!(Some(StillUpdate::Close), idle.update(StillEvent::Close));
    let mut failed = PlaceholderPlayer::Error { message: "bad".to_string(), hovered: true };
    assert_eq!(Some(StillUpdate::Refresh), failed.update(StillEvent::Refresh));
    failed.update(StillEvent::MouseExit);
    assert_eq!(PlaceholderPlayer::Error { message: "bad".to_string(), hovered: false }, failed);
}
