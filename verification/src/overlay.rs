//! The overlay: what it shows of the stream and how it is operated.
pub mod app;
pub mod feed;
pub mod mic;
pub mod modes;
pub mod runtime;
pub mod state;
