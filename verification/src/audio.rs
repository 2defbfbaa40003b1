//! Recording: its phases and options, the input devices, and what is done to other sounds.
pub mod ducking;
pub mod input_device;
pub mod level_monitor;
pub mod recording;
pub mod stream_manager;
