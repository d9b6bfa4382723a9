//! Voice-conversion provider logic.

pub mod types;
pub mod elevenlabs;
pub mod mp3;
