//! Verified core of a system-tray companion for the `headsetcontrol` tool:
//! notification decisions, battery-rate tracking, the tray's texts and menu
//! model, the settings and the protocol spoken with the command-line tool.
//! What touches the desktop, the clock, the file system or a child process
//! is left to the application around this library; the few calls that ask
//! the machine for a directory or a file's existence stand in `platform`.

mod platform;
mod text;

pub mod autostart;
pub mod battery_rate;
pub mod config;
pub mod headset_cli;
pub mod menu;
pub mod monitor;
pub mod notifications;
pub mod tray;

pub use platform::utf8_lossy;
pub use text::{int_text, int_to_text, join_path, nat_text, nat_to_text, path_join, separator};
