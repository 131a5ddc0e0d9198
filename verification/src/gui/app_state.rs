//! The decisions of the application window: dialogs, the playlist's
//! lifecycle, settings edited by the user, the menu and the panes of
//! grids. The window performs each action and reports back with an event.
use vstd::prelude::*;
use crate::gui::keyboard::KeyCommand;
use crate::path::{StrictPath, StrictPathView};
use crate::prelude::{decimal, Error};
use crate::resource::config::{Playback, Theme};
use crate::resource::playlist::{count_with, lemma_count_with, parse_count_of, NonZeroCount, SplitAxis};

verus! {

/// A dialog that the window shows; grids are named by number.
#[derive(Clone, Debug, PartialEq, Eq)]
pub enum AppModal {
    Settings,
    GridSettings { grid: u64 },
    GridMedia { grid: u64 },
    Error(Error),
    AppUpdate,
    ConfirmLoadPlaylist,
    ConfirmDiscardPlaylist { exit: bool },
}

/// What the window keeps between events.
#[derive(Debug)]
pub struct AppState {
    /// Whether the layout changed since the playlist was loaded or saved.
    pub playlist_dirty: bool,
    /// Where the playlist is saved, if it is.
    pub playlist_path: Option<StrictPath>,
    /// Whether to ask before discarding an unsaved playlist.
    pub confirm_discard_playlist: bool,
    /// The dialogs shown, the last one on top.
    pub modals: Vec<AppModal>,
    /// The grid whose controls are shown, if any.
    pub viewing_pane_controls: Option<u64>,
    pub viewing_menu: bool,
    pub dragging_pane: bool,
    pub playback: Playback,
    pub theme: Theme,
    pub check_release: bool,
    /// The text last entered for how long images are shown.
    pub image_duration_raw: String,
}

pub struct AppStateView {
    pub playlist_dirty: bool,
    pub playlist_path: Option<StrictPathView>,
    pub confirm_discard_playlist: bool,
    pub modals: Seq<AppModal>,
    pub viewing_pane_controls: Option<u64>,
    pub viewing_menu: bool,
    pub dragging_pane: bool,
    pub playback: Playback,
    pub theme: Theme,
    pub check_release: bool,
    pub image_duration_raw: Seq<char>,
}

impl View for AppState {
    type V = AppStateView;

    open spec fn view(&self) -> AppStateView {
        AppStateView {
            playlist_dirty: self.playlist_dirty,
            playlist_path: match self.playlist_path {
                Some(p) => Some(p@),
                None => None,
            },
            confirm_discard_playlist: self.confirm_discard_playlist,
            modals: self.modals@,
            viewing_pane_controls: self.viewing_pane_controls,
            viewing_menu: self.viewing_menu,
            dragging_pane: self.dragging_pane,
            playback: self.playback,
            theme: self.theme,
            check_release: self.check_release,
            image_duration_raw: self.image_duration_raw@,
        }
    }
}

/// What happens to the window.
#[derive(Debug)]
pub enum AppEvent {
    Exit { force: bool },
    CloseModal,
    ShowSettings,
    SetTheme(Theme),
    SetCheckRelease(bool),
    ImageDurationRaw(String),
    SetPauseOnUnfocus(bool),
    SetConfirmDiscardPlaylist(bool),
    SetSynchronized(bool),
    OpenUrlAndCloseModal(String),
    OpenPathFailure(StrictPath),
    OpenUrlFailure(String),
    PlaylistReset { force: bool },
    PlaylistSelect { force: bool },
    PlaylistLoad(StrictPath),
    /// Loading the playlist at the path ended.
    PlaylistLoaded { path: StrictPath, result: Result<(), Error> },
    PlaylistSave,
    PlaylistSaveAs,
    PlaylistSavedAs(StrictPath),
    /// Saving the playlist ended; `renamed` where it was saved under a new
    /// path.
    PlaylistSaved { result: Result<(), Error>, renamed: bool },
    ShowMenu(Option<bool>),
    PaneDragPicked,
    PaneDropped,
    PaneDragCanceled,
    PaneResized,
    SplitGrid { grid: u64, axis: SplitAxis },
    /// A grid was split off; `origin_idle` where the grid split had no
    /// players.
    GridSplit { new_grid: u64, origin_idle: bool },
    CloseGrid { grid: u64 },
    ShowControls { grid: u64 },
    CloseControls,
}

/// What the window is to do.
#[derive(Debug, PartialEq, Eq)]
pub enum AppAction {
    /// Pause every player, then end the application.
    PauseAllAndExit,
    /// Save the configuration (soon).
    SaveConfig,
    OpenUrl(String),
    /// Replace the layout by one empty grid and forget the media found.
    ResetGrids,
    /// Let the user pick a playlist file to load.
    BrowsePlaylistToLoad,
    /// Let the user pick where to save the playlist; report
    /// `PlaylistSavedAs`.
    BrowsePlaylistToSave,
    /// Read the playlist at the path; on success put its layout in place and
    /// look for its media; report `PlaylistLoaded`.
    LoadPlaylist(StrictPath),
    /// Write the layout to the playlist's path in the state; report
    /// `PlaylistSaved`.
    SavePlaylist { renamed: bool },
    /// Look again for the media of the sources that start with the
    /// playlist placeholder.
    FindPlaceholderMedia,
    SplitGrid { grid: u64, axis: SplitAxis },
    /// Close the grid, update the playback flags and clear the selection.
    CloseGrid { grid: u64 },
}

/// The state with a dialog shown on top (which hides any grid controls).
pub open spec fn shown(s: AppStateView, m: AppModal) -> AppStateView {
    AppStateView { viewing_pane_controls: None, modals: s.modals.push(m), ..s }
}

/// The state with the top dialog closed.
pub open spec fn closed(s: AppStateView) -> AppStateView {
    AppStateView {
        modals: if s.modals.len() > 0 {
            s.modals.drop_last()
        } else {
            s.modals
        },
        ..s
    }
}

/// Whether leaving the current playlist must first be confirmed.
pub open spec fn must_confirm(s: AppStateView, force: bool) -> bool {
    s.playlist_dirty && !force && s.confirm_discard_playlist
}

/// The state and actions after `event`.
pub open spec fn app_step_of(s: AppStateView, event: AppEvent) -> (AppStateView, Seq<AppAction>) {
    let none = Seq::<AppAction>::empty();
    match event {
        AppEvent::Exit { force } => if must_confirm(s, force) {
            (shown(s, AppModal::ConfirmDiscardPlaylist { exit: true }), none)
        } else {
            (s, seq![AppAction::PauseAllAndExit])
        },
        AppEvent::CloseModal => {
            let c = closed(s);
            (
                if parse_count_of(s.image_duration_raw) is None {
                    AppStateView {
                        image_duration_raw: decimal(s.playback.image_duration@),
                        ..c
                    }
                } else {
                    c
                },
                none,
            )
        },
        AppEvent::ShowSettings => (shown(s, AppModal::Settings), none),
        AppEvent::SetTheme(t) => (AppStateView { theme: t, ..s }, seq![AppAction::SaveConfig]),
        AppEvent::SetCheckRelease(b) => (
            AppStateView { check_release: b, ..s },
            seq![AppAction::SaveConfig],
        ),
        AppEvent::ImageDurationRaw(raw) => (
            AppStateView {
                image_duration_raw: raw@,
                playback: match parse_count_of(raw@) {
                    Some(n) => Playback {
                        image_duration: count_with(n),
                        ..s.playback
                    },
                    None => s.playback,
                },
                ..s
            },
            seq![AppAction::SaveConfig],
        ),
        AppEvent::SetPauseOnUnfocus(b) => (
            AppStateView { playback: Playback { pause_on_unfocus: b, ..s.playback }, ..s },
            seq![AppAction::SaveConfig],
        ),
        AppEvent::SetConfirmDiscardPlaylist(b) => (
            AppStateView { confirm_discard_playlist: b, ..s },
            seq![AppAction::SaveConfig],
        ),
        AppEvent::SetSynchronized(b) => (
            AppStateView { playback: Playback { synchronized: b, ..s.playback }, ..s },
            seq![AppAction::SaveConfig],
        ),
        AppEvent::OpenUrlAndCloseModal(url) => (closed(s), seq![AppAction::OpenUrl(url)]),
        AppEvent::OpenPathFailure(path) => (
            shown(s, AppModal::Error(Error::UnableToOpenPath(path))),
            none,
        ),
        AppEvent::OpenUrlFailure(url) => (shown(s, AppModal::Error(Error::UnableToOpenUrl(url))), none),
        AppEvent::PlaylistReset { force } => if must_confirm(s, force) {
            (shown(s, AppModal::ConfirmDiscardPlaylist { exit: false }), none)
        } else {
            (
                AppStateView { playlist_dirty: false, playlist_path: None, ..closed(s) },
                seq![AppAction::ResetGrids],
            )
        },
        AppEvent::PlaylistSelect { force } => if must_confirm(s, force) {
            (shown(s, AppModal::ConfirmLoadPlaylist), none)
        } else {
            (closed(s), seq![AppAction::BrowsePlaylistToLoad])
        },
        AppEvent::PlaylistLoad(path) => (
            AppStateView { modals: Seq::<AppModal>::empty(), ..s },
            seq![AppAction::LoadPlaylist(path)],
        ),
        AppEvent::PlaylistLoaded { path, result } => match result {
            Ok(_) => (
                AppStateView { playlist_dirty: false, playlist_path: Some(path@), ..s },
                none,
            ),
            Err(e) => (shown(s, AppModal::Error(e)), none),
        },
        AppEvent::PlaylistSave => if s.playlist_path is Some {
            (s, seq![AppAction::SavePlaylist { renamed: false }])
        } else {
            (s, none)
        },
        AppEvent::PlaylistSaveAs => (s, seq![AppAction::BrowsePlaylistToSave]),
        AppEvent::PlaylistSavedAs(path) => (
            AppStateView { playlist_path: Some(path@), ..s },
            seq![AppAction::SavePlaylist { renamed: true }],
        ),
        AppEvent::PlaylistSaved { result, renamed } => match result {
            Ok(_) => (
                AppStateView { playlist_dirty: false, ..s },
                if renamed {
                    seq![AppAction::FindPlaceholderMedia]
                } else {
                    none
                },
            ),
            Err(e) => (shown(s, AppModal::Error(e)), none),
        },
        AppEvent::ShowMenu(show) => (
            AppStateView {
                viewing_menu: match show {
                    Some(b) => b,
                    None => !s.viewing_menu,
                },
                ..s
            },
            none,
        ),
        AppEvent::PaneDragPicked => (AppStateView { dragging_pane: true, ..s }, none),
        AppEvent::PaneDropped => (
            AppStateView { dragging_pane: false, playlist_dirty: true, ..s },
            none,
        ),
        AppEvent::PaneDragCanceled => (AppStateView { dragging_pane: false, ..s }, none),
        AppEvent::PaneResized => (AppStateView { playlist_dirty: true, ..s }, none),
        AppEvent::SplitGrid { grid, axis } => (s, seq![AppAction::SplitGrid { grid, axis }]),
        AppEvent::GridSplit { new_grid, origin_idle } => {
            let d = AppStateView { playlist_dirty: true, ..s };
            (
                if origin_idle {
                    d
                } else {
                    shown(d, AppModal::GridSettings { grid: new_grid })
                },
                none,
            )
        },
        AppEvent::CloseGrid { grid } => (
            AppStateView { playlist_dirty: true, ..s },
            seq![AppAction::CloseGrid { grid }],
        ),
        AppEvent::ShowControls { grid } => (
            AppStateView {
                viewing_pane_controls: if s.viewing_pane_controls == Some(grid) {
                    None
                } else {
                    Some(grid)
                },
                ..s
            },
            none,
        ),
        AppEvent::CloseControls => (AppStateView { viewing_pane_controls: None, ..s }, none),
    }
}

fn show(state: &mut AppState, m: AppModal)
    ensures
        final(state)@ == shown(old(state)@, m),
{
    state.viewing_pane_controls = None;
    state.modals.push(m);
}

fn close(state: &mut AppState)
    ensures
        final(state)@ == closed(old(state)@),
{
    if state.modals.len() > 0 {
        state.modals.pop();
    }
}

fn one(a: AppAction) -> (v: Vec<AppAction>)
    ensures
        v@ == seq![a],
{
    let mut v: Vec<AppAction> = Vec::new();
    v.push(a);
    assert(v@ =~= seq![a]);
    v
}

/// Whether the event leaves the current playlist without forcing it.
pub open spec fn leaves_playlist(event: AppEvent) -> bool {
    ||| event == (AppEvent::Exit { force: false })
    ||| event == (AppEvent::PlaylistReset { force: false })
    ||| event == (AppEvent::PlaylistSelect { force: false })
}

/// Whether the dialog asks to confirm leaving the playlist.
pub open spec fn asks_confirmation(m: AppModal) -> bool {
    m is ConfirmDiscardPlaylist || m is ConfirmLoadPlaylist
}

/// While the playlist has unsaved changes and the settings ask for
/// confirmation, leaving it (exiting, starting anew or opening another)
/// does nothing but ask: the playlist stays and a confirmation is shown.
pub proof fn law_unsaved_playlist_needs_confirmation(s: AppStateView, event: AppEvent)
    requires
        s.playlist_dirty,
        s.confirm_discard_playlist,
        leaves_playlist(event),
    ensures
        app_step_of(s, event).1.len() == 0,
        app_step_of(s, event).0.playlist_dirty,
        app_step_of(s, event).0.playlist_path == s.playlist_path,
        app_step_of(s, event).0.modals.len() == s.modals.len() + 1,
        asks_confirmation(app_step_of(s, event).0.modals.last()),
{
}

/// Events about dialogs, settings and leaving.
pub open spec fn is_window_event(e: AppEvent) -> bool {
    ||| e is Exit
    ||| e is CloseModal
    ||| e is ShowSettings
    ||| e is SetTheme
    ||| e is SetCheckRelease
    ||| e is ImageDurationRaw
    ||| e is SetPauseOnUnfocus
    ||| e is SetConfirmDiscardPlaylist
    ||| e is SetSynchronized
    ||| e is OpenUrlAndCloseModal
    ||| e is OpenPathFailure
    ||| e is OpenUrlFailure
}

#[verifier::rlimit(50)]
fn step_window(state: AppState, event: AppEvent) -> (res: (AppState, Vec<AppAction>))
    requires
        is_window_event(event),
    ensures
        (res.0@, res.1@) == app_step_of(state@, event),
{
    let mut s = state;
    let mut actions: Vec<AppAction> = Vec::new();
    match event {
        AppEvent::Exit { force } => {
            if s.playlist_dirty && !force && s.confirm_discard_playlist {
                show(&mut s, AppModal::ConfirmDiscardPlaylist { exit: true });
            } else {
                actions = one(AppAction::PauseAllAndExit);
            }
        },
        AppEvent::CloseModal => {
            close(&mut s);
            if NonZeroCount::parse(s.image_duration_raw.as_str()).is_none() {
                s.image_duration_raw = crate::prelude::decimal_string(s.playback.image_duration.get() as u64);
            }
        },
        AppEvent::ShowSettings => show(&mut s, AppModal::Settings),
        AppEvent::SetTheme(t) => {
            s.theme = t;
            actions = one(AppAction::SaveConfig);
        },
        AppEvent::SetCheckRelease(b) => {
            s.check_release = b;
            actions = one(AppAction::SaveConfig);
        },
        AppEvent::ImageDurationRaw(raw) => {
            match NonZeroCount::parse(raw.as_str()) {
                Some(c) => {
                    proof {
                        lemma_count_with(c);
                    }
                    s.playback.image_duration = c;
                },
                None => {},
            }
            s.image_duration_raw = raw;
            actions = one(AppAction::SaveConfig);
        },
        AppEvent::SetPauseOnUnfocus(b) => {
            s.playback.pause_on_unfocus = b;
            actions = one(AppAction::SaveConfig);
        },
        AppEvent::SetConfirmDiscardPlaylist(b) => {
            s.confirm_discard_playlist = b;
            actions = one(AppAction::SaveConfig);
        },
        AppEvent::SetSynchronized(b) => {
            s.playback.synchronized = b;
            actions = one(AppAction::SaveConfig);
        },
        AppEvent::OpenUrlAndCloseModal(url) => {
            close(&mut s);
            actions = one(AppAction::OpenUrl(url));
        },
        AppEvent::OpenPathFailure(path) => show(&mut s, AppModal::Error(Error::UnableToOpenPath(path))),
        AppEvent::OpenUrlFailure(url) => show(&mut s, AppModal::Error(Error::UnableToOpenUrl(url))),
        _ => {},
    }
    (s, actions)
}

/// Events about the playlist file.
pub open spec fn is_playlist_event(e: AppEvent) -> bool {
    ||| e is PlaylistReset
    ||| e is PlaylistSelect
    ||| e is PlaylistLoad
    ||| e is PlaylistLoaded
    ||| e is PlaylistSave
    ||| e is PlaylistSaveAs
    ||| e is PlaylistSavedAs
    ||| e is PlaylistSaved
}

#[verifier::rlimit(50)]
fn step_playlist(state: AppState, event: AppEvent) -> (res: (AppState, Vec<AppAction>))
    requires
        is_playlist_event(event),
    ensures
        (res.0@, res.1@) == app_step_of(state@, event),
{
    let mut s = state;
    let mut actions: Vec<AppAction> = Vec::new();
    match event {
        AppEvent::PlaylistReset { force } => {
            if s.playlist_dirty && !force && s.confirm_discard_playlist {
                show(&mut s, AppModal::ConfirmDiscardPlaylist { exit: false });
            } else {
                close(&mut s);
                s.playlist_dirty = false;
                s.playlist_path = None;
                actions = one(AppAction::ResetGrids);
            }
        },
        AppEvent::PlaylistSelect { force } => {
            if s.playlist_dirty && !force && s.confirm_discard_playlist {
                show(&mut s, AppModal::ConfirmLoadPlaylist);
            } else {
                close(&mut s);
                actions = one(AppAction::BrowsePlaylistToLoad);
            }
        },
        AppEvent::PlaylistLoad(path) => {
            s.modals = Vec::new();
            actions = one(AppAction::LoadPlaylist(path));
        },
        AppEvent::PlaylistLoaded { path, result } => match result {
            Ok(_) => {
                s.playlist_dirty = false;
                s.playlist_path = Some(path);
            },
            Err(e) => show(&mut s, AppModal::Error(e)),
        },
        AppEvent::PlaylistSave => {
            if s.playlist_path.is_some() {
                actions = one(AppAction::SavePlaylist { renamed: false });
            }
        },
        AppEvent::PlaylistSaveAs => {
            actions = one(AppAction::BrowsePlaylistToSave);
        },
        AppEvent::PlaylistSavedAs(path) => {
            s.playlist_path = Some(path);
            actions = one(AppAction::SavePlaylist { renamed: true });
        },
        AppEvent::PlaylistSaved { result, renamed } => match result {
            Ok(_) => {
                s.playlist_dirty = false;
                if renamed {
                    actions = one(AppAction::FindPlaceholderMedia);
                }
            },
            Err(e) => show(&mut s, AppModal::Error(e)),
        },
        _ => {},
    }
    (s, actions)
}

/// Events about the menu and the panes of grids.
pub open spec fn is_panes_event(e: AppEvent) -> bool {
    ||| e is ShowMenu
    ||| e is PaneDragPicked
    ||| e is PaneDropped
    ||| e is PaneDragCanceled
    ||| e is PaneResized
    ||| e is SplitGrid
    ||| e is GridSplit
    ||| e is CloseGrid
    ||| e is ShowControls
    ||| e is CloseControls
}

#[verifier::rlimit(50)]
fn step_panes(state: AppState, event: AppEvent) -> (res: (AppState, Vec<AppAction>))
    requires
        is_panes_event(event),
    ensures
        (res.0@, res.1@) == app_step_of(state@, event),
{
    let mut s = state;
    let mut actions: Vec<AppAction> = Vec::new();
    match event {
        AppEvent::ShowMenu(show_menu) => {
            s.viewing_menu = match show_menu {
                Some(b) => b,
                None => !s.viewing_menu,
            };
        },
        AppEvent::PaneDragPicked => {
            s.dragging_pane = true;
        },
        AppEvent::PaneDropped => {
            s.dragging_pane = false;
            s.playlist_dirty = true;
        },
        AppEvent::PaneDragCanceled => {
            s.dragging_pane = false;
        },
        AppEvent::PaneResized => {
            s.playlist_dirty = true;
        },
        AppEvent::SplitGrid { grid, axis } => {
            actions = one(AppAction::SplitGrid { grid, axis });
        },
        AppEvent::GridSplit { new_grid, origin_idle } => {
            s.playlist_dirty = true;
            if !origin_idle {
                show(&mut s, AppModal::GridSettings { grid: new_grid });
            }
        },
        AppEvent::CloseGrid { grid } => {
            s.playlist_dirty = true;
            actions = one(AppAction::CloseGrid { grid });
        },
        AppEvent::ShowControls { grid } => {
            s.viewing_pane_controls = match s.viewing_pane_controls {
                Some(g) => if g == grid {
                    None
                } else {
                    Some(grid)
                },
                None => Some(grid),
            };
        },
        AppEvent::CloseControls => {
            s.viewing_pane_controls = None;
        },
        _ => {},
    }
    (s, actions)
}

fn is_playlist(e: &AppEvent) -> (res: bool)
    ensures
        res == is_playlist_event(*e),
{
    match e {
        AppEvent::PlaylistReset { .. } => true,
        AppEvent::PlaylistSelect { .. } => true,
        AppEvent::PlaylistLoad { .. } => true,
        AppEvent::PlaylistLoaded { .. } => true,
        AppEvent::PlaylistSave { .. } => true,
        AppEvent::PlaylistSaveAs { .. } => true,
        AppEvent::PlaylistSavedAs { .. } => true,
        AppEvent::PlaylistSaved { .. } => true,
        _ => false,
    }
}

fn is_pane(e: &AppEvent) -> (res: bool)
    ensures
        res == is_panes_event(*e),
{
    match e {
        AppEvent::ShowMenu { .. } => true,
        AppEvent::PaneDragPicked { .. } => true,
        AppEvent::PaneDropped { .. } => true,
        AppEvent::PaneDragCanceled { .. } => true,
        AppEvent::PaneResized { .. } => true,
        AppEvent::SplitGrid { .. } => true,
        AppEvent::GridSplit { .. } => true,
        AppEvent::CloseGrid { .. } => true,
        AppEvent::ShowControls { .. } => true,
        AppEvent::CloseControls { .. } => true,
        _ => false,
    }
}

/// Moves the window on by one event: the next state, and what to do.
pub fn app_step(state: AppState, event: AppEvent) -> (res: (AppState, Vec<AppAction>))
    ensures
        (res.0@, res.1@) == app_step_of(state@, event),
{
    if is_playlist(&event) {
        step_playlist(state, event)
    } else if is_pane(&event) {
        step_panes(state, event)
    } else {
        step_window(state, event)
    }
}


/// The window event that a key command stands for, where the command is
/// one of the window's own (the others act on the players and grids
/// selected).
pub fn window_event(command: KeyCommand, state: &AppState) -> (res: Option<AppEvent>)
    ensures
        res == match command {
            KeyCommand::CloseModal => Some(AppEvent::CloseModal),
            KeyCommand::ToggleSynchronized => Some(
                AppEvent::SetSynchronized(!state.playback.synchronized),
            ),
            KeyCommand::NewPlaylist => Some(AppEvent::PlaylistReset { force: false }),
            KeyCommand::OpenPlaylist => Some(AppEvent::PlaylistSelect { force: false }),
            KeyCommand::SavePlaylist => Some(AppEvent::PlaylistSave),
            KeyCommand::SavePlaylistAs => Some(AppEvent::PlaylistSaveAs),
            _ => None,
        },
{
    match command {
        KeyCommand::CloseModal => Some(AppEvent::CloseModal),
        KeyCommand::ToggleSynchronized => Some(AppEvent::SetSynchronized(!state.playback.synchronized)),
        KeyCommand::NewPlaylist => Some(AppEvent::PlaylistReset { force: false }),
        KeyCommand::OpenPlaylist => Some(AppEvent::PlaylistSelect { force: false }),
        KeyCommand::SavePlaylist => Some(AppEvent::PlaylistSave),
        KeyCommand::SavePlaylistAs => Some(AppEvent::PlaylistSaveAs),
        _ => None,
    }
}

/// Starting a new playlist, where no confirmation is needed, forgets where
/// the old one was saved and leaves nothing unsaved, so that a later save
/// cannot write the new layout over the old file; the grids are reset and
/// the top dialog closes.
pub proof fn law_new_playlist_forgets_the_file(s: AppStateView, force: bool)
    requires
        !must_confirm(s, force),
    ensures
        app_step_of(s, AppEvent::PlaylistReset { force }).0.playlist_path is None,
        !app_step_of(s, AppEvent::PlaylistReset { force }).0.playlist_dirty,
        app_step_of(s, AppEvent::PlaylistReset { force }).1 == seq![AppAction::ResetGrids],
        app_step_of(s, AppEvent::PlaylistReset { force }).0.modals.len() == if s.modals.len() > 0 {
            s.modals.len() - 1
        } else {
            0
        },
        app_step_of(s, AppEvent::PlaylistSave).1.len() == 1 ==> s.playlist_path is Some,
{
}

/// A playlist that loads becomes the one that saving writes to, with
/// nothing unsaved; saving where no file is known writes nothing; a
/// successful save leaves nothing unsaved and keeps the file.
pub proof fn law_loaded_playlist_is_saved_there(s: AppStateView, path: StrictPath)
    ensures
        app_step_of(s, AppEvent::PlaylistLoaded { path, result: Ok(()) }).0.playlist_path == Some(
            path@,
        ),
        !app_step_of(s, AppEvent::PlaylistLoaded { path, result: Ok(()) }).0.playlist_dirty,
        s.playlist_path is None ==> app_step_of(s, AppEvent::PlaylistSave).1.len() == 0,
        s.playlist_path is Some ==> app_step_of(s, AppEvent::PlaylistSave).1 == seq![
            AppAction::SavePlaylist { renamed: false },
        ],
        !app_step_of(s, AppEvent::PlaylistSaved { result: Ok(()), renamed: false }).0.playlist_dirty,
        app_step_of(s, AppEvent::PlaylistSaved { result: Ok(()), renamed: false }).0.playlist_path
            == s.playlist_path,
        app_step_of(s, AppEvent::PlaylistSavedAs(path)).0.playlist_path == Some(path@),
{
}

/// Moving, resizing, splitting and closing panes leave the playlist with
/// unsaved changes; showing a grid's controls twice hides them again;
/// exiting when forced pauses everything and ends, changing nothing else.
pub proof fn law_pane_edits_and_exit(s: AppStateView, grid: u64, new_grid: u64, idle: bool)
    ensures
        app_step_of(s, AppEvent::PaneDropped).0.playlist_dirty,
        app_step_of(s, AppEvent::PaneResized).0.playlist_dirty,
        app_step_of(s, AppEvent::CloseGrid { grid }).0.playlist_dirty,
        app_step_of(s, AppEvent::CloseGrid { grid }).1 == seq![AppAction::CloseGrid { grid }],
        app_step_of(s, AppEvent::GridSplit { new_grid, origin_idle: idle }).0.playlist_dirty,
        !idle ==> app_step_of(s, AppEvent::GridSplit { new_grid, origin_idle: idle }).0.modals.last()
            == (AppModal::GridSettings { grid: new_grid }),
        s.viewing_pane_controls is None ==> (app_step_of(
            app_step_of(s, AppEvent::ShowControls { grid }).0,
            AppEvent::ShowControls { grid },
        ).0.viewing_pane_controls is None),
        app_step_of(s, AppEvent::ShowControls { grid }).0.viewing_pane_controls != s.viewing_pane_controls,
        app_step_of(s, AppEvent::Exit { force: true }).1 == seq![AppAction::PauseAllAndExit],
        app_step_of(s, AppEvent::Exit { force: true }).0 == s,
{
}

/// Entering a count for how long images show takes it, and keeps the text
/// as entered; other text keeps the duration. Closing a dialog closes only
/// the top one, and puts back the duration's own text where what was
/// entered is no count.
pub proof fn law_image_duration_and_dialogs(s: AppStateView, raw: String)
    ensures
        app_step_of(s, AppEvent::ImageDurationRaw(raw)).0.image_duration_raw == raw@,
        parse_count_of(raw@) matches Some(n) ==> app_step_of(
            s,
            AppEvent::ImageDurationRaw(raw),
        ).0.playback.image_duration@ == n,
        parse_count_of(raw@) is None ==> app_step_of(s, AppEvent::ImageDurationRaw(raw)).0.playback
            == s.playback,
        app_step_of(s, AppEvent::ImageDurationRaw(raw)).1 == seq![AppAction::SaveConfig],
        s.modals.len() > 0 ==> app_step_of(s, AppEvent::CloseModal).0.modals == s.modals.subrange(
            0,
            s.modals.len() - 1,
        ),
        parse_count_of(s.image_duration_raw) is None ==> app_step_of(
            s,
            AppEvent::CloseModal,
        ).0.image_duration_raw == decimal(s.playback.image_duration@),
        app_step_of(s, AppEvent::ShowSettings).0.modals == s.modals.push(AppModal::Settings),
        app_step_of(s, AppEvent::ShowSettings).0.viewing_pane_controls is None,
{
    if let Some(n) = parse_count_of(raw@) {
        crate::resource::playlist::lemma_count_exists(n);
    }
}

} // verus!
