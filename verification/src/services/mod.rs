//! The workflows of the application.

pub mod auth;
pub mod sync;
