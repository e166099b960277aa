//! Access control and command routing for a chat bot that reads messages
//! aloud in a voice call.

pub mod bot;
pub mod catalog;
pub mod command;
pub mod router;
pub mod speech;
pub mod store;
pub mod text;
