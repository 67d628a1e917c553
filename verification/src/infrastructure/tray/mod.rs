//! The tray.

pub mod icons;
