//! What is done about each message.

pub mod remotes;
