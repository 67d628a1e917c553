//! The list of remotes.

use crate::domain::remote::RemoteId;
use vstd::prelude::*;

verus! {

/// What the page reports.
#[derive(Clone, Copy, Debug, PartialEq, Eq)]
pub enum Msg {
    Selected(RemoteId),
    RefreshAll,
    AddRemote,
}

} // verus!
