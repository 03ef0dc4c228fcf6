//! Verified core of a command-line and terminal player for Synology Audio Station.
pub mod api;
pub mod cache;
pub mod cli;
pub mod config;
pub mod credentials;
pub mod duration;
pub mod error;
pub mod history;
pub mod ipc;
pub mod platform;
pub mod playback;
pub mod player;
pub mod text;
pub mod tui;
pub mod util;
