//! Decision logic of a chat bot that verifies game accounts and mirrors the
//! state of a game server in a channel name.
//!
//! Nothing in this crate performs I/O. Every flow is a state machine: the
//! caller performs the action that a step hands out and feeds the outcome
//! back in as the next event.

pub mod allowlist;
pub mod bootstrap;
pub mod community;
pub mod config;
pub mod identity;
pub mod presence;
pub mod reply;
pub mod status;
pub mod text;
pub mod workflow;
