//! Configured remotes and their policies.

use std::time::Duration;
use vstd::prelude::*;

verus! {

/// The key of a remote in the database.
#[derive(Clone, Copy, Debug, PartialEq, Eq, Hash, Structural)]
pub struct RemoteId(pub i64);

/// The service behind a remote.
#[derive(Clone, Copy, Debug, PartialEq, Eq, Structural)]
pub enum ProviderKind {
    ProtonDrive,
    GDrive,
    Dropbox,
    PCloud,
    WebDav,
    Nextcloud,
    Owncloud,
}

/// How often a remote is synced, and whether at all.
#[derive(Clone, Copy, Debug, PartialEq, Eq)]
pub struct SyncPolicy {
    pub interval: Duration,
    pub enabled: bool,
}

/// A configured remote.
#[derive(Clone, Debug, PartialEq, Eq)]
pub struct Remote {
    pub id: RemoteId,
    pub name: String,
    pub policy: SyncPolicy,
    pub provider_kind: Option<ProviderKind>,
}

} // verus!
