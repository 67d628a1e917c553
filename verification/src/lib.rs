//! The logic of a desktop client that keeps local directories in step with
//! cloud storage: what a sync pass decides, how a path is found on a Proton
//! drive, which adapter serves which remote, how sessions are kept, and what
//! the screens show. Everything here is computed on plain values; the network,
//! the keyring, the windows and the tray stand outside, hand in what came back
//! and carry out what is asked for.

pub mod app;
pub mod domain;
pub mod go;
pub mod icons;
pub mod infrastructure;
pub mod screens;
pub mod services;
pub mod text;
pub mod theme;
pub mod widgets;
