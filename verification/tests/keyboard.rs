use madamiru::gui::app_state::{app_step, window_event, AppAction, AppEvent, AppState};
use madamiru::resource::config::{Playback, Theme};
use madamiru::gui::keyboard::{key_command, Key, KeyCommand, KeyContext, Modifiers, StepDirection};

fn idle() -> KeyContext {
    KeyContext { modal_open: false, dragging_files: false, anything_selected: false, grid_selected: false }
}

#[test]
fn keys_map_to_commands() {
    let none = Modifiers::default();
    let ctrl = Modifiers { command: true, ..Modifiers::default() };
    let ctrl_shift = Modifiers { command: true, shift: true, other: false };
    assert_eq!(KeyCommand::TogglePause, key_command(Key::Space, none, idle()));
    assert_eq!(KeyCommand::Step(StepDirection::Earlier), key_command(Key::ArrowLeft, none, idle()));
    assert_eq!(KeyCommand::CloseSelected, key_command(Key::Delete, none, idle()));
    assert_eq!(KeyCommand::SeekRandom, key_command(Key::Character('J'), none, idle()));
    assert_eq!(KeyCommand::ToggleMute, key_command(Key::Character('m'), none, idle()));
    assert_eq!(KeyCommand::Nothing, key_command(Key::Character('n'), none, idle()));
    let selected = KeyContext { anything_selected: true, grid_selected: true, ..idle() };
    assert_eq!(KeyCommand::AddPlayer, key_command(Key::Character('n'), none, selected));
    assert_eq!(KeyCommand::NewPlaylist, key_command(Key::Character('n'), ctrl, idle()));
    assert_eq!(KeyCommand::OpenPlaylist, key_command(Key::Character('O'), ctrl, idle()));
    assert_eq!(KeyCommand::SavePlaylist, key_command(Key::Character('s'), ctrl, idle()));
    assert_eq!(KeyCommand::SavePlaylistAs, key_command(Key::Character('S'), ctrl_shift, idle()));
    assert_eq!(KeyCommand::Nothing, key_command(Key::Character('s'), none, idle()));
    assert_eq!(KeyCommand::CycleSelection { backward: true }, key_command(Key::Tab, Modifiers { shift: true, ..none }, idle()));
    assert_eq!(KeyCommand::ClearSelection, key_command(Key::Escape, none, selected));
}

#[test]
fn dialogs_capture_keys() {
    let open = KeyContext { modal_open: true, ..idle() };
    let none = Modifiers::default();
    assert_eq!(KeyCommand::FocusNext, key_command(Key::Tab, none, open));
    assert_eq!(KeyCommand::CloseModal, key_command(Key::Escape, none, open));
    assert_eq!(KeyCommand::Nothing, key_command(Key::Space, none, open));
    assert_eq!(KeyCommand::Nothing, key_command(Key::Character('j'), none, open));
}

#[test]
fn window_commands_become_window_events() {
    let state = AppState {
        playlist_dirty: false,
        playlist_path: None,
        confirm_discard_playlist: true,
        modals: vec![],
        viewing_pane_controls: None,
        viewing_menu: false,
        dragging_pane: false,
        playback: Playback::default(),
        theme: Theme::Dark,
        check_release: true,
        image_duration_raw: "10".to_string(),
    };
    assert!(matches!(window_event(KeyCommand::SavePlaylistAs, &state), Some(AppEvent::PlaylistSaveAs)));
    assert!(window_event(KeyCommand::TogglePause, &state).is_none());
    let event = window_event(KeyCommand::ToggleSynchronized, &state).unwrap();
    let (state, actions) = app_step(state, event);
    assert!(state.playback.synchronized);
    assert_eq!(vec![AppAction::SaveConfig], actions);
    let (_, actions) = app_step(state, AppEvent::PlaylistSaveAs);
    assert_eq!(vec![AppAction::BrowsePlaylistToSave], actions);
}
