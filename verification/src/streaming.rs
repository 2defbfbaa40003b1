//! Streaming a recording to a realtime transcription provider.
pub mod events;
pub mod hub;
pub mod machine;
pub mod mistral_realtime;
pub mod pump;
pub mod rate;
pub mod session;
