//! Pieces that several screens share.

pub mod run_state_icon;
