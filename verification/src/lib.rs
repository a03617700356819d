//! Verified core of a Wayland Discord voice overlay: the Discord IPC frame
//! format and message handling, the overlay state machine, layout arithmetic
//! and the labels the overlay renders.

pub mod avatar;
pub mod config;
pub mod discord;
pub mod handlers;
pub mod json;
pub mod latency;
pub mod render_error;
pub mod state;
pub mod text;
