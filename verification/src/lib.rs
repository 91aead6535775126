//! Decision logic of the AirCut desktop shell.
//!
//! The shell keeps a status icon in the system tray, shows and hides the main
//! window, relays shell commands and keeps a local backend alive. Everything
//! that decides something lives here, as functions from plain values to plain
//! values; the windowing toolkit, timers and processes stay with the caller.

pub mod backend;
pub mod command;
pub mod controller;
pub mod icon;
pub mod icon_cache;
pub mod laws;
pub mod state;
pub mod text;
pub mod theme;
pub mod tray;
pub mod window;
