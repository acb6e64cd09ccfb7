//! Sticky windows for the niri compositor: windows that follow the user to whatever
//! workspace becomes active.
//!
//! The library holds the daemon's state and its decisions. Sockets, processes and tasks
//! are the caller's.

pub mod cli;
pub mod compositor;
pub mod control;
pub mod daemon;
pub mod decimal;
pub mod json;
pub mod laws;
pub mod protocol;
pub mod sticky;
pub mod text;
pub mod watcher;
