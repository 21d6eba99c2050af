//! Data layer of a desktop audio player: audio-file selection, MIME
//! resolution, track-name inference and the persisted settings document.
pub mod text;
pub mod mime;
pub mod path;
pub mod info;
pub mod buffer;
pub mod catalog;
pub mod config;
