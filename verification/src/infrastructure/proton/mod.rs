//! The native Proton adapter.

pub mod client;
pub mod disabled;
pub mod job;
