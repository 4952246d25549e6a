//! A fleet of bots for a Minecraft server, without the network and without
//! the terminal: the state of the fleet, what the sessions report and what
//! that does to the fleet, and what the interface shows and does on a key.

pub mod chat;
pub mod config;
pub mod fleet;
pub mod input;
pub mod laws;
pub mod layout;
pub mod session;
pub mod text;
pub mod ui;

pub use crate::fleet::{App, Bot, BotState, Message};
