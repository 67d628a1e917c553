//! The nouns of the application.

pub mod backend_events;
pub mod events;
pub mod ports;
pub mod remote;
pub mod run_state;
pub mod sync;
