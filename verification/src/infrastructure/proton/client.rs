//! The native Proton adapter: the calls that serve each operation of the
//! backend port on a session.

use crate::domain::sync::ListFilter;
use crate::go::proton as calls;
use crate::go::{Request, RequestView, Shim};
use crate::infrastructure::proton::job::{
    begin, start, Call, CallView, Goal, GoalView, Step,
};
use crate::services::auth::proton as auth;
use vstd::prelude::*;

verus! {

/// The native Proton adapter. Holds the handle of the session that a login or
/// a resume gave.
#[derive(Clone, Debug)]
pub struct NativeProtonClient {
    uid: String,
}

/// The request that a call is made with.
pub open spec fn request_of(uid: Seq<char>, call: CallView) -> RequestView {
    match call {
        CallView::RootLinkId => calls::call(Shim::RootLinkId, seq![("uid"@, uid)]),
        CallView::ListDirectory(link) => calls::call(
            Shim::ListDirectory,
            seq![("link_id"@, link), ("uid"@, uid)],
        ),
        CallView::ListRecursive(link) => calls::call(
            Shim::ListRecursive,
            seq![("link_id"@, link), ("uid"@, uid)],
        ),
        CallView::Stat(link) => calls::call(Shim::Stat, seq![("link_id"@, link), ("uid"@, uid)]),
        CallView::CreateFolder { parent, name } => calls::call(
            Shim::CreateFolder,
            seq![("name"@, name), ("parent_link_id"@, parent), ("uid"@, uid)],
        ),
        CallView::UploadFile { parent, name, local } => calls::call(
            Shim::UploadFile,
            seq![
                ("name"@, name),
                ("parent_link_id"@, parent),
                ("src_path"@, local),
                ("uid"@, uid),
            ],
        ),
        CallView::DownloadFile { link, local } => calls::call(
            Shim::DownloadFile,
            seq![("dest_path"@, local), ("link_id"@, link), ("uid"@, uid)],
        ),
        CallView::TrashLink(link) => calls::call(
            Shim::TrashLink,
            seq![("link_id"@, link), ("uid"@, uid)],
        ),
    }
}

impl NativeProtonClient {
    /// The handle of the session.
    pub closed spec fn session(&self) -> Seq<char> {
        self.uid@
    }

    /// An adapter for the session `uid`.
    pub fn new(uid: String) -> (r: Self)
        ensures
            r.session() == uid@,
    {
        NativeProtonClient { uid }
    }

    /// The handle of the session.
    pub fn uid(&self) -> (r: &str)
        ensures
            r@ == self.session(),
    {
        self.uid.as_str()
    }

    /// The request that `call` is made with on this session.
    pub fn request(&self, call: &Call) -> (r: Request)
        ensures
            r@ == request_of(self.session(), call@),
    {
        let uid = self.uid.as_str();
        match call {
            Call::RootLinkId => calls::root_link_id(uid),
            Call::ListDirectory(link) => calls::list_directory(uid, link.as_str()),
            Call::ListRecursive(link) => calls::list_recursive(uid, link.as_str()),
            Call::Stat(link) => calls::stat(uid, link.as_str()),
            Call::CreateFolder { parent, name } => calls::create_folder(
                uid,
                parent.as_str(),
                name.as_str(),
            ),
            Call::UploadFile { parent, name, local } => calls::upload_file(
                uid,
                parent.as_str(),
                name.as_str(),
                local.as_str(),
            ),
            Call::DownloadFile { link, local } => calls::download_file(
                uid,
                link.as_str(),
                local.as_str(),
            ),
            Call::TrashLink(link) => calls::trash_link(uid, link.as_str()),
        }
    }

    /// What stands at `path`.
    pub fn stat(&self, path: &str) -> (r: Step)
        ensures
            r@ == start(GoalView::Stat, path@),
    {
        begin(Goal::Stat, path)
    }

    /// What lies in the folder `path`, or with `recursive` everything under
    /// it, as far as `filter` keeps it.
    pub fn list(&self, path: &str, recursive: bool, filter: ListFilter) -> (r: Step)
        ensures
            r@ == start(GoalView::List { recursive, filter }, path@),
    {
        begin(Goal::List { recursive, filter }, path)
    }

    /// Creates the folder `path`.
    pub fn mkdir(&self, path: &str) -> (r: Step)
        ensures
            r@ == start(GoalView::Mkdir, path@),
    {
        begin(Goal::Mkdir, path)
    }

    /// Moves the file `path` into the trash.
    pub fn delete_file(&self, path: &str) -> (r: Step)
        ensures
            r@ == start(GoalView::Trash, path@),
    {
        begin(Goal::Trash, path)
    }

    /// Moves the folder `path` into the trash, with all it holds. The server
    /// cascades, so that this is the same as for a file.
    pub fn purge(&self, path: &str) -> (r: Step)
        ensures
            r@ == start(GoalView::Trash, path@),
    {
        self.delete_file(path)
    }

    /// Uploads the file `local_path` to `remote_path`.
    pub fn copy_to_remote(&self, local_path: &str, remote_path: &str) -> (r: Step)
        ensures
            r@ == start(GoalView::Upload { local: local_path@ }, remote_path@),
    {
        begin(Goal::Upload { local: local_path.to_owned() }, remote_path)
    }

    /// Downloads the file `remote_path` to `local_path`.
    pub fn copy_to_local(&self, local_path: &str, remote_path: &str) -> (r: Step)
        ensures
            r@ == start(GoalView::Download { local: local_path@ }, remote_path@),
    {
        begin(Goal::Download { local: local_path.to_owned() }, remote_path)
    }

    /// The session belongs to whoever made the adapter: there is nothing to
    /// delete.
    pub fn delete_config(&self) -> (r: Result<(), String>)
        ensures
            r == Ok::<(), String>(()),
    {
        Ok(())
    }

    /// A native remote is made from a credential, not from such a payload.
    pub fn create_config(&self) -> (r: Result<(), String>)
        ensures
            r matches Err(e) && e@
                == "native-proton client does not accept rclone-style create_config payloads"@,
    {
        Err("native-proton client does not accept rclone-style create_config payloads".to_owned())
    }

    /// The kind of backend.
    pub fn remote_type(&self) -> (r: Result<Option<String>, String>)
        ensures
            r matches Ok(Some(kind)) && kind@ == "native-proton"@,
    {
        Ok(Some("native-proton".to_owned()))
    }

    /// Keeps the tokens of the session, if they have changed, under the name
    /// `remote` that the adapter is registered with.
    pub fn checkpoint_session(&self, remote: &str) -> (r: auth::Step)
        ensures
            r@ == auth::checkpoint_step(remote@, self.session()),
    {
        auth::persist_session_if_rotated(remote, self.uid.as_str())
    }
}

/// No operation asks to delete for good: what a sync pass removes can be
/// restored from the trash.
pub proof fn law_never_deletes_for_good(uid: Seq<char>, call: CallView)
    ensures
        request_of(uid, call).shim != Shim::PermanentDeleteLink,
{
}

/// Every request is made on the session, and says what the call is about: the
/// link, the name, and the local path.
pub proof fn law_request_says_what_the_call_says(uid: Seq<char>, call: CallView)
    ensures
        ({
            let r = request_of(uid, call);
            &&& r.fields.contains(("uid"@, uid))
            &&& match call {
                CallView::RootLinkId => r.shim == Shim::RootLinkId && r.fields.len() == 1,
                CallView::ListDirectory(link) => r.shim == Shim::ListDirectory && r.fields.len()
                    == 2 && r.fields.contains(("link_id"@, link)),
                CallView::ListRecursive(link) => r.shim == Shim::ListRecursive && r.fields.len()
                    == 2 && r.fields.contains(("link_id"@, link)),
                CallView::Stat(link) => r.shim == Shim::Stat && r.fields.len() == 2
                    && r.fields.contains(("link_id"@, link)),
                CallView::CreateFolder { parent, name } => r.shim == Shim::CreateFolder
                    && r.fields.len() == 3 && r.fields.contains(("parent_link_id"@, parent))
                    && r.fields.contains(("name"@, name)),
                CallView::UploadFile { parent, name, local } => r.shim == Shim::UploadFile
                    && r.fields.len() == 4 && r.fields.contains(("parent_link_id"@, parent))
                    && r.fields.contains(("name"@, name)) && r.fields.contains(
                    ("src_path"@, local),
                ),
                CallView::DownloadFile { link, local } => r.shim == Shim::DownloadFile
                    && r.fields.len() == 3 && r.fields.contains(("link_id"@, link))
                    && r.fields.contains(("dest_path"@, local)),
                CallView::TrashLink(link) => r.shim == Shim::TrashLink && r.fields.len() == 2
                    && r.fields.contains(("link_id"@, link)),
            }
        }),
{
    let f = request_of(uid, call).fields;
    assert(f[f.len() - 1] == ("uid"@, uid));
    match call {
        CallView::RootLinkId => {},
        CallView::CreateFolder { parent, name } => {
            assert(f[0] == ("name"@, name));
            assert(f[1] == ("parent_link_id"@, parent));
        },
        CallView::UploadFile { parent, name, local } => {
            assert(f[0] == ("name"@, name));
            assert(f[1] == ("parent_link_id"@, parent));
            assert(f[2] == ("src_path"@, local));
        },
        CallView::DownloadFile { link, local } => {
            assert(f[0] == ("dest_path"@, local));
            assert(f[1] == ("link_id"@, link));
        },
        CallView::ListDirectory(link) | CallView::ListRecursive(link) | CallView::Stat(link)
        | CallView::TrashLink(link) => {
            assert(f[0] == ("link_id"@, link));
        },
    }
}

} // verus!
