//! Verified logic of a voice dictation service.
pub mod api;
pub mod audio;
pub mod config;
pub mod json;
pub mod laws;
pub mod overlay;
pub mod service;
pub mod stamp;
pub mod streaming;
pub mod text;
pub mod text_io;
pub mod tray;
pub mod web_url;
