//! Readers of backend error messages.

pub mod proton;
