//! The decisions of the voice-clip daemon and its client, verified.

pub mod capture;
pub mod clip;
pub mod config;
pub mod daemon;
pub mod laws;
pub mod lifecycle;
pub mod notify;
pub mod paths;
pub mod protocol;
pub mod startup;
pub mod text;
pub mod transcription;
