//! Core logic of a low-memory screen recorder: configuration, ffmpeg
//! command lines, monitor-geometry parsing, frame pacing and the tray
//! state machine, each stated as a contract and proved with Verus.

pub mod text;
pub mod x11;
pub mod paths;
pub mod config;
pub mod ffmpeg;
pub mod audio;
pub mod recorder;
pub mod capture;
pub mod icon;
pub mod wayland;
pub mod tray;
