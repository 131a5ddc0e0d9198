//! The keyboard controls of the window: what each key press asks for.
use vstd::prelude::*;

verus! {

/// A key that was pressed.
#[derive(Clone, Copy, Debug, PartialEq, Eq)]
pub enum Key {
    Tab,
    Escape,
    Space,
    ArrowLeft,
    ArrowRight,
    Backspace,
    Delete,
    /// A key that types this character.
    Character(char),
    Other,
}

/// The modifier keys held: shift, the command key (Control, or Command on
/// macOS), and any other (Alt, the logo key).
#[derive(Clone, Copy, Debug, Default, PartialEq, Eq)]
pub struct Modifiers {
    pub shift: bool,
    pub command: bool,
    pub other: bool,
}

/// What the window knows when a key is pressed.
#[derive(Clone, Copy, Debug, PartialEq, Eq)]
pub struct KeyContext {
    pub modal_open: bool,
    pub dragging_files: bool,
    pub anything_selected: bool,
    /// Whether a grid (or a player in it) is selected.
    pub grid_selected: bool,
}

/// Which way a step moves in a medium.
#[derive(Clone, Copy, Debug, PartialEq, Eq)]
pub enum StepDirection {
    Earlier,
    Later,
}

/// What a key press asks for. Those that act on the selection act on the
/// selected player, else on the selected grid, else on everything.
#[derive(Clone, Copy, Debug, PartialEq, Eq)]
pub enum KeyCommand {
    Nothing,
    FocusNext,
    FocusPrevious,
    CycleSelection { backward: bool },
    CloseModal,
    ClearDraggedFiles,
    ClearSelection,
    TogglePause,
    Step(StepDirection),
    CloseSelected,
    SeekRandom,
    ToggleSynchronized,
    ToggleMute,
    AddPlayer,
    NewPlaylist,
    OpenPlaylist,
    Refresh,
    SavePlaylist,
    SavePlaylistAs,
}

/// Whether `c` is the letter `lower` in either case.
pub open spec fn is_letter(c: char, lower: char) -> bool {
    c == lower || c as int == lower as int - 32
}

/// The command that a key press asks for.
pub open spec fn key_command_of(key: Key, m: Modifiers, ctx: KeyContext) -> KeyCommand {
    let none = !m.shift && !m.command && !m.other;
    let command = m.command && !m.shift && !m.other;
    let command_shift = m.command && m.shift && !m.other;
    match key {
        Key::Tab => if ctx.modal_open {
            if m.shift {
                KeyCommand::FocusPrevious
            } else {
                KeyCommand::FocusNext
            }
        } else {
            KeyCommand::CycleSelection { backward: m.shift }
        },
        Key::Escape => if ctx.modal_open {
            KeyCommand::CloseModal
        } else if ctx.dragging_files {
            KeyCommand::ClearDraggedFiles
        } else if ctx.anything_selected {
            KeyCommand::ClearSelection
        } else {
            KeyCommand::Nothing
        },
        _ => if ctx.modal_open {
            KeyCommand::Nothing
        } else {
            match key {
                Key::Space => KeyCommand::TogglePause,
                Key::ArrowLeft => KeyCommand::Step(StepDirection::Earlier),
                Key::ArrowRight => KeyCommand::Step(StepDirection::Later),
                Key::Backspace | Key::Delete => KeyCommand::CloseSelected,
                Key::Character(c) => if is_letter(c, 'j') {
                    KeyCommand::SeekRandom
                } else if is_letter(c, 'l') {
                    KeyCommand::ToggleSynchronized
                } else if is_letter(c, 'm') {
                    KeyCommand::ToggleMute
                } else if is_letter(c, 'n') && none {
                    if ctx.grid_selected {
                        KeyCommand::AddPlayer
                    } else {
                        KeyCommand::Nothing
                    }
                } else if is_letter(c, 'n') && command {
                    KeyCommand::NewPlaylist
                } else if is_letter(c, 'o') && command {
                    KeyCommand::OpenPlaylist
                } else if is_letter(c, 'r') {
                    KeyCommand::Refresh
                } else if is_letter(c, 's') && command {
                    KeyCommand::SavePlaylist
                } else if is_letter(c, 's') && command_shift {
                    KeyCommand::SavePlaylistAs
                } else {
                    KeyCommand::Nothing
                },
                _ => KeyCommand::Nothing,
            }
        },
    }
}

fn letter(c: char, lower: char, upper: char) -> (res: bool)
    requires
        upper as int == lower as int - 32,
    ensures
        res == is_letter(c, lower),
{
    c == lower || c == upper
}

/// The command that a key press asks for.
pub fn key_command(key: Key, m: Modifiers, ctx: KeyContext) -> (res: KeyCommand)
    ensures
        res == key_command_of(key, m, ctx),
{
    let none = !m.shift && !m.command && !m.other;
    let command = m.command && !m.shift && !m.other;
    let command_shift = m.command && m.shift && !m.other;
    match key {
        Key::Tab => {
            if ctx.modal_open {
                if m.shift {
                    KeyCommand::FocusPrevious
                } else {
                    KeyCommand::FocusNext
                }
            } else {
                KeyCommand::CycleSelection { backward: m.shift }
            }
        },
        Key::Escape => {
            if ctx.modal_open {
                KeyCommand::CloseModal
            } else if ctx.dragging_files {
                KeyCommand::ClearDraggedFiles
            } else if ctx.anything_selected {
                KeyCommand::ClearSelection
            } else {
                KeyCommand::Nothing
            }
        },
        _ => {
            if ctx.modal_open {
                return KeyCommand::Nothing;
            }
            match key {
                Key::Space => KeyCommand::TogglePause,
                Key::ArrowLeft => KeyCommand::Step(StepDirection::Earlier),
                Key::ArrowRight => KeyCommand::Step(StepDirection::Later),
                Key::Backspace | Key::Delete => KeyCommand::CloseSelected,
                Key::Character(c) => {
                    if letter(c, 'j', 'J') {
                        KeyCommand::SeekRandom
                    } else if letter(c, 'l', 'L') {
                        KeyCommand::ToggleSynchronized
                    } else if letter(c, 'm', 'M') {
                        KeyCommand::ToggleMute
                    } else if letter(c, 'n', 'N') && none {
                        if ctx.grid_selected {
                            KeyCommand::AddPlayer
                        } else {
                            KeyCommand::Nothing
                        }
                    } else if letter(c, 'n', 'N') && command {
                        KeyCommand::NewPlaylist
                    } else if letter(c, 'o', 'O') && command {
                        KeyCommand::OpenPlaylist
                    } else if letter(c, 'r', 'R') {
                        KeyCommand::Refresh
                    } else if letter(c, 's', 'S') && command {
                        KeyCommand::SavePlaylist
                    } else if letter(c, 's', 'S') && command_shift {
                        KeyCommand::SavePlaylistAs
                    } else {
                        KeyCommand::Nothing
                    }
                },
                _ => KeyCommand::Nothing,
            }
        },
    }
}

/// While a dialog is open, only Tab (moving the focus) and Escape (closing
/// the dialog) do anything.
pub proof fn law_dialogs_capture_keys(key: Key, m: Modifiers, ctx: KeyContext)
    requires
        ctx.modal_open,
        key != Key::Tab,
        key != Key::Escape,
    ensures
        key_command_of(key, m, ctx) == KeyCommand::Nothing,
{
}

/// Without an open dialog, the right arrow steps later in the media and the
/// left arrow steps earlier, whatever modifiers are held.
pub proof fn law_arrows_step_their_way(m: Modifiers, ctx: KeyContext)
    requires
        !ctx.modal_open,
    ensures
        key_command_of(Key::ArrowRight, m, ctx) == KeyCommand::Step(StepDirection::Later),
        key_command_of(Key::ArrowLeft, m, ctx) == KeyCommand::Step(StepDirection::Earlier),
        key_command_of(Key::Space, m, ctx) == KeyCommand::TogglePause,
        key_command_of(Key::Backspace, m, ctx) == KeyCommand::CloseSelected,
        key_command_of(Key::Delete, m, ctx) == KeyCommand::CloseSelected,
{
}

/// Without an open dialog and with no modifier held, letters act in either
/// case: J seeks at random, L toggles synchronizing, M toggles muting and R
/// refreshes; with the command key alone, S saves and O opens, and with
/// command and shift, S saves under a new name.
pub proof fn law_letters_ignore_case(ctx: KeyContext)
    requires
        !ctx.modal_open,
    ensures
        ({
            let none = Modifiers { shift: false, command: false, other: false };
            let cmd = Modifiers { shift: false, command: true, other: false };
            let cmd_shift = Modifiers { shift: true, command: true, other: false };
            &&& key_command_of(Key::Character('j'), none, ctx) == KeyCommand::SeekRandom
            &&& key_command_of(Key::Character('J'), none, ctx) == KeyCommand::SeekRandom
            &&& key_command_of(Key::Character('l'), none, ctx) == KeyCommand::ToggleSynchronized
            &&& key_command_of(Key::Character('M'), none, ctx) == KeyCommand::ToggleMute
            &&& key_command_of(Key::Character('r'), none, ctx) == KeyCommand::Refresh
            &&& key_command_of(Key::Character('s'), cmd, ctx) == KeyCommand::SavePlaylist
            &&& key_command_of(Key::Character('S'), cmd_shift, ctx) == KeyCommand::SavePlaylistAs
            &&& key_command_of(Key::Character('o'), cmd, ctx) == KeyCommand::OpenPlaylist
            &&& key_command_of(Key::Character('n'), cmd, ctx) == KeyCommand::NewPlaylist
            &&& key_command_of(Key::Character('s'), none, ctx) == KeyCommand::Nothing
        }),
{
}

/// Tab moves the focus inside an open dialog (backwards with shift) and
/// otherwise cycles the selection; Escape closes the top dialog first, else
/// drops the dragged files, else clears the selection.
pub proof fn law_tab_and_escape(m: Modifiers, ctx: KeyContext)
    ensures
        ctx.modal_open ==> key_command_of(Key::Tab, m, ctx) == if m.shift {
            KeyCommand::FocusPrevious
        } else {
            KeyCommand::FocusNext
        },
        !ctx.modal_open ==> key_command_of(Key::Tab, m, ctx) == (KeyCommand::CycleSelection {
            backward: m.shift,
        }),
        ctx.modal_open ==> key_command_of(Key::Escape, m, ctx) == KeyCommand::CloseModal,
        !ctx.modal_open && ctx.dragging_files ==> key_command_of(Key::Escape, m, ctx)
            == KeyCommand::ClearDraggedFiles,
        !ctx.modal_open && !ctx.dragging_files && ctx.anything_selected ==> key_command_of(
            Key::Escape,
            m,
            ctx,
        ) == KeyCommand::ClearSelection,
{
}

} // verus!
