//! The settings that playlists and the configuration hold.
pub mod cache;
pub mod config;
pub mod playlist;
