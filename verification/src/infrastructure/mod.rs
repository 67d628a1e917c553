//! The adapters behind the ports.

pub mod client_router;
pub mod proton;
pub mod translators;
pub mod tray;
