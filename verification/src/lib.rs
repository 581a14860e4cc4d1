//! The decisions of a chat relay: a bot that hands each message of a channel
//! to a language model and writes the answer back into the channel.
//!
//! Nothing here talks to a network. [`relay::Relay`] is a small state machine
//! that is started with a message and then fed the outcome of each action it
//! asked for; it answers with the next action. The caller carries the actions
//! out.

pub mod command;
pub mod config;
pub mod flag;
pub mod laws;
pub mod relay;
pub mod text;
