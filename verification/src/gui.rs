//! The parts of the player's interface that hold no drawing: icons, the
//! kinds of media and dialogs, the settings of a grid, what can be
//! selected, and the players of still media.
pub mod app_state;
pub mod grid;
pub mod grid_settings;
pub mod icon;
pub mod keyboard;
pub mod players;
pub mod kinds;
pub mod selection;
pub mod startup;
pub mod still;
