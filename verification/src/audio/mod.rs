//! Audio pipeline logic.

pub mod channels;
pub mod vad;
pub mod resample;
pub mod chunker;
pub mod engine;
pub mod timing;
pub mod device;
pub mod device_watcher;
