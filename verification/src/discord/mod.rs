//! Discord IPC: message types, JSON parsing, frame handling and the client's decisions.

pub mod auth;
pub mod client;
pub mod handlers;
pub mod ipc;
pub mod parser;
pub mod types;

pub use types::{Config, DiscordCommand, DiscordEvent, DiscordEventV, Participant, ParticipantBuilder, UserId};
