//! What the screens show and what they report.

pub mod add_remote;
pub mod main_page;
pub mod remote_page;
