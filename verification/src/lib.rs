//! Verified core of a real-time voice changer: channel and rate conversion,
//! voice-activity gating, utterance chunking, engine state, device selection,
//! the speech-to-speech wire formats and the credential store.

pub mod audio;
pub mod text;
pub mod provider;
pub mod commands;
pub mod db;
