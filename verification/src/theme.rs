//! The colour scheme of the desktop.

use vstd::prelude::*;

verus! {

/// What the desktop says of its colour scheme.
#[derive(Clone, Copy, Debug, PartialEq, Eq, Structural)]
pub enum Mode {
    /// It states no preference.
    Unset,
    Light,
    Dark,
}

} // verus!
