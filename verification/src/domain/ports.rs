//! The ports through which the services reach the outside world: the database
//! and the storage backends. Adapters live outside; the services know only
//! these traits.

use crate::domain::remote::{Remote, RemoteId, SyncPolicy};
use crate::domain::sync::{
    ListFilter, RemoteItem, SyncDir, SyncDirExclusion, SyncDirExclusionId, SyncDirId, SyncItem,
    SyncItemId,
};
use std::sync::atomic::{AtomicBool, Ordering};
use std::sync::Arc;
use vstd::prelude::*;

verus! {

/// A flag that is raised to ask a running operation to stop. Adapters look at
/// it between two steps.
pub type Cancel = Arc<AtomicBool>;

/// A flag that nobody has raised: a fresh atomic that starts as `false`.
pub fn cancel_never() -> (r: Cancel)
    ensures
        call_ensures(AtomicBool::new, (false,), *r),
{
    Arc::new(AtomicBool::new(false))
}

/// Whether `cancel` has been raised: what an acquiring load of the flag gives
/// at this moment.
pub fn is_cancelled(cancel: &Cancel) -> (r: bool)
    ensures
        call_ensures(AtomicBool::load, (&**cancel, Ordering::Acquire), r),
{
    cancel.load(Ordering::Acquire)
}

/// Why the database did not answer.
#[derive(Clone, Debug, PartialEq, Eq)]
pub enum RepositoryError {
    NotFound,
    Other(String),
}

impl RepositoryError {
    /// The words for the user.
    pub open spec fn words(&self) -> Seq<char> {
        match self {
            RepositoryError::NotFound => "not found"@,
            RepositoryError::Other(msg) => msg@,
        }
    }

    /// The words for the user.
    pub fn message(&self) -> (r: String)
        ensures
            r@ == self.words(),
    {
        match self {
            RepositoryError::NotFound => "not found".to_owned(),
            RepositoryError::Other(msg) => msg.clone(),
        }
    }
}

/// What the database said is told as it was said.
pub proof fn law_words_of_the_database(msg: String)
    ensures
        RepositoryError::Other(msg).words() == msg@,
        RepositoryError::NotFound.words() == "not found"@,
{
}

/// The database.
pub trait Repository: Send + Sync {
    fn list_remotes(&self) -> Result<Vec<Remote>, RepositoryError>;

    fn find_remote(&self, id: RemoteId) -> Result<Option<Remote>, RepositoryError>;

    fn find_remote_by_name(&self, name: &str) -> Result<Option<Remote>, RepositoryError>;

    fn insert_remote(&self, name: String) -> Result<RemoteId, RepositoryError>;

    /// Inserts a remote that the native Proton adapter serves. `session_path`
    /// marks where its credential is kept.
    fn insert_native_proton_remote(&self, name: String, session_path: String) -> Result<
        RemoteId,
        RepositoryError,
    >;

    fn delete_remote(&self, id: RemoteId) -> Result<(), RepositoryError>;

    /// Deletes a remote, its synced directories and all of their items.
    fn cascade_delete_remote(&self, id: RemoteId) -> Result<(), RepositoryError>;

    /// Deletes a synced directory and all of its items.
    fn cascade_delete_sync_dir(&self, local_path: &str, remote_path: &str) -> Result<
        (),
        RepositoryError,
    >;

    fn set_policy(&self, id: RemoteId, policy: SyncPolicy) -> Result<(), RepositoryError>;

    fn list_sync_dirs(&self, remote: RemoteId) -> Result<Vec<SyncDir>, RepositoryError>;

    fn list_all_sync_dirs(&self) -> Result<Vec<SyncDir>, RepositoryError>;

    fn sync_dir_exists(&self, local_path: &str, remote_path: &str) -> Result<
        bool,
        RepositoryError,
    >;

    fn insert_sync_dir(
        &self,
        remote: RemoteId,
        local_path: String,
        remote_path: String,
    ) -> Result<(), RepositoryError>;

    fn list_sync_items(&self, sync_dir: SyncDirId) -> Result<Vec<SyncItem>, RepositoryError>;

    fn find_sync_item_by_paths(
        &self,
        sync_dir: SyncDirId,
        local_path: &str,
        remote_path: &str,
    ) -> Result<Option<SyncItem>, RepositoryError>;

    fn find_sync_item_by_local(&self, sync_dir: SyncDirId, local_path: &str) -> Result<
        Option<SyncItem>,
        RepositoryError,
    >;

    fn find_sync_item_by_remote(&self, sync_dir: SyncDirId, remote_path: &str) -> Result<
        Option<SyncItem>,
        RepositoryError,
    >;

    fn delete_sync_item(&self, id: SyncItemId) -> Result<(), RepositoryError>;

    fn insert_sync_item(
        &self,
        sync_dir: SyncDirId,
        local_path: String,
        remote_path: String,
        last_local_timestamp: i64,
        last_remote_timestamp: i64,
    ) -> Result<(), RepositoryError>;

    fn update_sync_item_timestamps(
        &self,
        id: SyncItemId,
        last_local_timestamp: i64,
        last_remote_timestamp: i64,
    ) -> Result<(), RepositoryError>;

    fn delete_sync_item_by_paths(
        &self,
        sync_dir: SyncDirId,
        local_path: &str,
        remote_path: &str,
    ) -> Result<(), RepositoryError>;

    /// Deletes the items of `sync_dir` whose local path is `local_prefix` or
    /// lies under it.
    fn delete_sync_items_with_local_prefix(
        &self,
        sync_dir: SyncDirId,
        local_prefix: &str,
    ) -> Result<(), RepositoryError>;

    fn list_exclusions(&self, sync_dir: SyncDirId) -> Result<
        Vec<SyncDirExclusion>,
        RepositoryError,
    >;

    fn insert_exclusion(&self, sync_dir: SyncDirId, remote_path: String) -> Result<
        (),
        RepositoryError,
    >;

    fn delete_exclusion(&self, id: SyncDirExclusionId) -> Result<(), RepositoryError>;
}

/// A storage backend.
pub trait BackendClient: Send + Sync {
    fn stat(&self, remote: &str, path: &str, cancel: &Cancel) -> Result<Option<RemoteItem>, String>;

    fn list(
        &self,
        remote: &str,
        path: &str,
        recursive: bool,
        filter: ListFilter,
        cancel: &Cancel,
    ) -> Result<Vec<RemoteItem>, String>;

    fn mkdir(&self, remote: &str, path: &str, cancel: &Cancel) -> Result<(), String>;

    fn delete_file(&self, remote: &str, path: &str, cancel: &Cancel) -> Result<(), String>;

    fn purge(&self, remote: &str, path: &str, cancel: &Cancel) -> Result<(), String>;

    fn copy_to_remote(
        &self,
        local_path: &str,
        remote: &str,
        remote_path: &str,
        cancel: &Cancel,
    ) -> Result<(), String>;

    fn copy_to_local(
        &self,
        local_path: &str,
        remote: &str,
        remote_path: &str,
        cancel: &Cancel,
    ) -> Result<(), String>;

    fn delete_config(&self, remote: &str) -> Result<(), String>;

    /// Creates a configuration from the JSON body of rclone's `config/create`.
    fn create_config(&self, payload_json: String) -> Result<(), String>;

    /// The kind of backend behind a configured remote, such as `drive` or
    /// `webdav`; `Ok(None)` where the name is not configured.
    fn remote_type(&self, remote: &str) -> Result<Option<String>, String>;

    /// Keeps what changed of a session during a pass, such as a rotated token,
    /// so that it survives a restart. Nothing to do unless an adapter has
    /// sessions of its own.
    fn checkpoint_session(&self, _remote: &str) {
    }
}

} // verus!
