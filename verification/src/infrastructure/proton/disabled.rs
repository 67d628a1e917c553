//! Stands in for a native Proton remote whose session could not be taken up.

use crate::domain::ports::{BackendClient, Cancel};
use crate::domain::sync::{ListFilter, RemoteItem};
use vstd::prelude::*;

verus! {

/// Stands in for a native Proton remote whose session could not be taken up at
/// the start. Registered on the router, it answers every call with the reason,
/// so that the user reads what to do instead of an error about a configuration
/// that such a remote never has.
#[derive(Clone, Debug)]
pub struct DisabledProtonClient {
    reason: String,
}

impl DisabledProtonClient {
    /// What every call is answered with.
    pub closed spec fn reason(&self) -> Seq<char> {
        self.reason@
    }

    /// A stand-in that answers with `reason`.
    pub fn new(reason: String) -> (r: Self)
        ensures
            r.reason() == reason@,
    {
        DisabledProtonClient { reason }
    }

    /// The refusal.
    fn refuse<T>(&self) -> (r: Result<T, String>)
        ensures
            r matches Err(e) && e@ == self.reason(),
    {
        Err(self.reason.clone())
    }
}

impl BackendClient for DisabledProtonClient {
    fn stat(&self, _remote: &str, _path: &str, _cancel: &Cancel) -> (r: Result<
        Option<RemoteItem>,
        String,
    >)
        ensures
            r matches Err(e) && e@ == self.reason(),
    {
        self.refuse()
    }

    fn list(
        &self,
        _remote: &str,
        _path: &str,
        _recursive: bool,
        _filter: ListFilter,
        _cancel: &Cancel,
    ) -> (r: Result<Vec<RemoteItem>, String>)
        ensures
            r matches Err(e) && e@ == self.reason(),
    {
        self.refuse()
    }

    fn mkdir(&self, _remote: &str, _path: &str, _cancel: &Cancel) -> (r: Result<(), String>)
        ensures
            r matches Err(e) && e@ == self.reason(),
    {
        self.refuse()
    }

    fn delete_file(&self, _remote: &str, _path: &str, _cancel: &Cancel) -> (r: Result<(), String>)
        ensures
            r matches Err(e) && e@ == self.reason(),
    {
        self.refuse()
    }

    fn purge(&self, _remote: &str, _path: &str, _cancel: &Cancel) -> (r: Result<(), String>)
        ensures
            r matches Err(e) && e@ == self.reason(),
    {
        self.refuse()
    }

    fn copy_to_remote(
        &self,
        _local_path: &str,
        _remote: &str,
        _remote_path: &str,
        _cancel: &Cancel,
    ) -> (r: Result<(), String>)
        ensures
            r matches Err(e) && e@ == self.reason(),
    {
        self.refuse()
    }

    fn copy_to_local(
        &self,
        _local_path: &str,
        _remote: &str,
        _remote_path: &str,
        _cancel: &Cancel,
    ) -> (r: Result<(), String>)
        ensures
            r matches Err(e) && e@ == self.reason(),
    {
        self.refuse()
    }

    fn delete_config(&self, _remote: &str) -> (r: Result<(), String>)
        ensures
            r matches Err(e) && e@ == self.reason(),
    {
        self.refuse()
    }

    fn create_config(&self, _payload_json: String) -> (r: Result<(), String>)
        ensures
            r matches Err(e) && e@ == self.reason(),
    {
        self.refuse()
    }

    fn remote_type(&self, _remote: &str) -> (r: Result<Option<String>, String>)
        ensures
            r matches Err(e) && e@ == self.reason(),
    {
        self.refuse()
    }
}

} // verus!
