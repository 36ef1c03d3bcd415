//! Verified core of a push-to-talk dictation tool.

pub mod text;
pub mod api;
pub mod ipc;
pub mod config;
pub mod hotkey;
pub mod typer;
pub mod beep;
pub mod session;
pub mod niri;
pub mod audio;
pub mod settings;
