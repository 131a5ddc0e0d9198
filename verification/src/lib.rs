//! Path handling, formatting and settings logic of a media-grid player.
pub mod text;
pub mod path;
pub mod prelude;
pub mod gui;
pub mod media;
pub mod resource;
pub mod dlna;
pub mod video_enhance;
