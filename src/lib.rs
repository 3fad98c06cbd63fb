//! Recording and transcription core of a push-to-talk dictation daemon.
//!
//! Samples are mono 16-bit PCM values throughout the library.

pub mod audio;
pub mod error;
pub mod text;
pub mod stt;
pub mod ipc;
pub mod recorder;
pub mod tray;
pub mod config;
