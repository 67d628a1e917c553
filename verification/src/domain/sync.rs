//! Synced directories and what is listed on a remote.

use crate::domain::events::Reason;
use crate::domain::remote::RemoteId;
use vstd::prelude::*;

verus! {

/// The key of a synced directory in the database.
#[derive(Clone, Copy, Debug, PartialEq, Eq, Hash, Structural)]
pub struct SyncDirId(pub i64);

/// The key of a synced file or folder in the database.
#[derive(Clone, Copy, Debug, PartialEq, Eq, Hash, Structural)]
pub struct SyncItemId(pub i64);

/// The key of an exclusion in the database.
#[derive(Clone, Copy, Debug, PartialEq, Eq, Hash, Structural)]
pub struct SyncDirExclusionId(pub i64);

/// A local directory tied to a directory of a remote.
#[derive(Clone, Debug, PartialEq, Eq)]
pub struct SyncDir {
    pub id: SyncDirId,
    pub remote_id: RemoteId,
    pub local_path: String,
    pub remote_path: String,
}

/// A sub-path of a synced directory that the user left out.
#[derive(Clone, Debug, PartialEq, Eq)]
pub struct SyncDirExclusion {
    pub id: SyncDirExclusionId,
    pub remote_path: String,
}

/// What the last pass knew of one file or folder.
#[derive(Clone, Debug, PartialEq, Eq)]
pub struct SyncItem {
    pub id: SyncItemId,
    pub local_path: String,
    pub remote_path: String,
    pub last_local_timestamp: i64,
    pub last_remote_timestamp: i64,
}

/// Which entries a listing keeps.
#[derive(Clone, Copy, Debug, PartialEq, Eq, Structural)]
pub enum ListFilter {
    All,
    Dirs,
    Files,
}

/// A file or folder on a remote. `mod_time` counts seconds from the epoch.
#[derive(Clone, Debug, PartialEq, Eq)]
pub struct RemoteItem {
    pub is_dir: bool,
    pub path: String,
    pub name: String,
    pub mod_time: i64,
}

/// A [`RemoteItem`] as a mathematical value.
pub struct RemoteItemView {
    pub is_dir: bool,
    pub path: Seq<char>,
    pub name: Seq<char>,
    pub mod_time: int,
}

impl View for RemoteItem {
    type V = RemoteItemView;

    open spec fn view(&self) -> RemoteItemView {
        RemoteItemView {
            is_dir: self.is_dir,
            path: self.path@,
            name: self.name@,
            mod_time: self.mod_time as int,
        }
    }
}

impl DeepView for RemoteItem {
    type V = RemoteItemView;

    open spec fn deep_view(&self) -> RemoteItemView {
        self@
    }
}

/// Why a synced directory could not be brought in step: the remote path and
/// the reason.
#[derive(Clone, Debug, PartialEq, Eq)]
pub enum SyncError {
    General(String, Reason),
}

} // verus!
