//! How accounts are set up.

pub mod proton;

pub use proton::{
    add_proton_drive_remote, forget_session as forget_proton_session,
    persist_session_if_rotated as persist_proton_session_if_rotated, reauth_proton_drive_remote,
    resume_session_from_keyring as resume_proton_session,
};
