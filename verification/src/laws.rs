//! What holds of the library's functions, stated over what they take and give.
pub mod texts;
pub mod realtime;
pub mod control;
pub mod session;
pub mod devices;
pub mod shown;
pub mod overlay;
pub mod typing;
pub mod published;
pub mod sound;
pub mod setup;
