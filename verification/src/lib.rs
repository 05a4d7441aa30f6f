//! Vivid adjusts a GPU's digital vibrance whenever the foreground application
//! changes, following a per-application policy.
//!
//! This crate holds the decisions of that service: which vendor backend to
//! select, which display to drive, what the window-event hook may do in each
//! state, how a foreground change is resolved to a process name, and which
//! vibrance a foreground change calls for. Talking to the operating system and
//! to the vendor driver is left to the caller, who hands the answers in as plain
//! values.

pub mod adapter;
pub mod config;
pub mod error;
pub mod foreground_callback;
pub mod foreground_watch;
pub mod names;
