//! Where a synced directory stands.

use vstd::prelude::*;

verus! {

/// What a running pass is doing.
#[derive(Clone, Copy, Debug, PartialEq, Eq, Structural)]
pub enum SyncActivity {
    Listing,
}

/// Where a synced directory stands.
#[derive(Clone, Copy, Debug, PartialEq, Eq, Structural)]
pub enum RunState {
    Waiting,
    Paused,
    AuthNeeded,
    Syncing(SyncActivity),
    Synced,
    Warning,
    Error,
}

} // verus!
