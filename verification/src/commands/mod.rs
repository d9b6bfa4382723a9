//! Values exchanged with the user interface and the decisions of its commands.

pub mod audio;
pub mod provider;
pub mod settings;
