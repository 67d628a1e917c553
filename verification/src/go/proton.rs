//! The calls of the native Proton client.

use crate::go::{call_json, Request, RequestView, Shim};
use vstd::prelude::*;

verus! {

/// What a fresh login takes. `mailbox_password` is for accounts with two
/// passwords, `two_fa` for those with a second factor.
#[derive(Clone, Debug, Default, PartialEq, Eq)]
pub struct LoginParams {
    pub username: String,
    pub password: String,
    pub mailbox_password: String,
    pub two_fa: String,
}

/// A credential that can be used again. `uid` is the handle of its session.
#[derive(Clone, Debug, PartialEq, Eq)]
pub struct ReusableCredential {
    pub uid: String,
    pub access_token: String,
    pub refresh_token: String,
    pub salted_key_pass: String,
}

/// A child of a folder, or the target of a `stat`. `mod_time_unix` counts
/// seconds from the epoch; `size` is the size as stored.
#[derive(Clone, Debug, PartialEq, Eq)]
pub struct Entry {
    pub link_id: String,
    pub parent_link_id: String,
    pub name: String,
    pub is_dir: bool,
    pub size: i64,
    pub mod_time_unix: i64,
    pub mime_type: String,
}

/// An [`Entry`] as a mathematical value.
pub struct EntryView {
    pub link_id: Seq<char>,
    pub parent_link_id: Seq<char>,
    pub name: Seq<char>,
    pub is_dir: bool,
    pub size: i64,
    pub mod_time_unix: i64,
    pub mime_type: Seq<char>,
}

impl View for Entry {
    type V = EntryView;

    open spec fn view(&self) -> EntryView {
        EntryView {
            link_id: self.link_id@,
            parent_link_id: self.parent_link_id@,
            name: self.name@,
            is_dir: self.is_dir,
            size: self.size,
            mod_time_unix: self.mod_time_unix,
            mime_type: self.mime_type@,
        }
    }
}

impl DeepView for Entry {
    type V = EntryView;

    open spec fn deep_view(&self) -> EntryView {
        self@
    }
}

/// A call with these members.
pub open spec fn call(shim: Shim, fields: Seq<(Seq<char>, Seq<char>)>) -> RequestView {
    RequestView { shim, fields }
}

/// A member of a payload.
fn field(name: &str, value: &str) -> (r: (String, String))
    ensures
        r.deep_view() == (name@, value@),
{
    (name.to_owned(), value.to_owned())
}

/// A call with one member.
fn call1(shim: Shim, name: &str, value: &str) -> (r: Request)
    ensures
        r@ == call(shim, seq![(name@, value@)]),
{
    let fields = vec![field(name, value)];
    assert(fields.deep_view() =~= seq![(name@, value@)]);
    Request { shim, fields }
}

/// A call with two members.
fn call2(shim: Shim, name1: &str, value1: &str, name2: &str, value2: &str) -> (r: Request)
    ensures
        r@ == call(shim, seq![(name1@, value1@), (name2@, value2@)]),
{
    let fields = vec![field(name1, value1), field(name2, value2)];
    assert(fields.deep_view() =~= seq![(name1@, value1@), (name2@, value2@)]);
    Request { shim, fields }
}

/// The members of a login: the two optional ones only where they hold
/// something.
pub open spec fn login_fields(params: LoginParams) -> Seq<(Seq<char>, Seq<char>)> {
    let base = seq![("username"@, params.username@), ("password"@, params.password@)];
    let with_mailbox = if params.mailbox_password@.len() == 0 {
        base
    } else {
        base.push(("mailbox_password"@, params.mailbox_password@))
    };
    if params.two_fa@.len() == 0 {
        with_mailbox
    } else {
        with_mailbox.push(("two_fa"@, params.two_fa@))
    }
}

/// Asks for a login.
pub fn login(params: &LoginParams) -> (r: Request)
    ensures
        r@ == call(Shim::Login, login_fields(*params)),
{
    let mut fields = vec![
        field("username", params.username.as_str()),
        field("password", params.password.as_str()),
    ];
    if !params.mailbox_password.as_str().is_empty() {
        fields.push(field("mailbox_password", params.mailbox_password.as_str()));
    }
    if !params.two_fa.as_str().is_empty() {
        fields.push(field("two_fa", params.two_fa.as_str()));
    }
    assert(fields.deep_view() =~= login_fields(*params));
    Request { shim: Shim::Login, fields }
}

/// Asks to end a session, on the server too.
pub fn logout(uid: &str) -> (r: Request)
    ensures
        r@ == call(Shim::Logout, seq![("uid"@, uid@)]),
{
    call1(Shim::Logout, "uid", uid)
}

/// Asks to write the credential of a session to a file.
pub fn save_session(uid: &str, path: &str) -> (r: Request)
    ensures
        r@ == call(Shim::SaveSession, seq![("path"@, path@), ("uid"@, uid@)]),
{
    call2(Shim::SaveSession, "path", path, "uid", uid)
}

/// Asks to write the credential of a session to a file if its tokens have
/// changed since the last time.
pub fn save_session_if_rotated(uid: &str, path: &str) -> (r: Request)
    ensures
        r@ == call(Shim::SaveSessionIfRotated, seq![("path"@, path@), ("uid"@, uid@)]),
{
    call2(Shim::SaveSessionIfRotated, "path", path, "uid", uid)
}

/// Asks to take up the session of a credential file.
pub fn resume_session(path: &str) -> (r: Request)
    ensures
        r@ == call(Shim::ResumeSession, seq![("path"@, path@)]),
{
    call1(Shim::ResumeSession, "path", path)
}

/// Asks for the link of the root folder.
pub fn root_link_id(uid: &str) -> (r: Request)
    ensures
        r@ == call(Shim::RootLinkId, seq![("uid"@, uid@)]),
{
    call1(Shim::RootLinkId, "uid", uid)
}

/// Asks for the children of a folder; an empty `link_id` stands for the root.
pub fn list_directory(uid: &str, link_id: &str) -> (r: Request)
    ensures
        r@ == call(Shim::ListDirectory, seq![("link_id"@, link_id@), ("uid"@, uid@)]),
{
    call2(Shim::ListDirectory, "link_id", link_id, "uid", uid)
}

/// Asks for everything under a folder, each entry named by its path from
/// there.
pub fn list_recursive(uid: &str, link_id: &str) -> (r: Request)
    ensures
        r@ == call(Shim::ListRecursive, seq![("link_id"@, link_id@), ("uid"@, uid@)]),
{
    call2(Shim::ListRecursive, "link_id", link_id, "uid", uid)
}

/// Asks what a link is.
pub fn stat(uid: &str, link_id: &str) -> (r: Request)
    ensures
        r@ == call(Shim::Stat, seq![("link_id"@, link_id@), ("uid"@, uid@)]),
{
    call2(Shim::Stat, "link_id", link_id, "uid", uid)
}

/// What a `stat` came to. `data` is what [`invoke_raw`](crate::go::invoke_raw)
/// gave, its payload already read where there was one. A link that is there but
/// not active has no payload, and is nothing.
pub fn stat_answer(data: Result<Option<Result<Option<Entry>, String>>, String>) -> (r: Result<
    Option<Entry>,
    String,
>)
    ensures
        match data {
            Err(e) => r == Err::<Option<Entry>, String>(e),
            Ok(None) => r == Ok::<Option<Entry>, String>(None),
            Ok(Some(Err(e))) => r matches Err(words) && words@ == "invalid response shape: "@ + e@,
            Ok(Some(Ok(entry))) => r == Ok::<Option<Entry>, String>(entry),
        },
{
    match data {
        Ok(None) => Ok(None),
        other => call_json(other),
    }
}

/// Asks to download a file.
pub fn download_file(uid: &str, link_id: &str, dest_path: &str) -> (r: Request)
    ensures
        r@ == call(
            Shim::DownloadFile,
            seq![("dest_path"@, dest_path@), ("link_id"@, link_id@), ("uid"@, uid@)],
        ),
{
    let fields = vec![
        field("dest_path", dest_path),
        field("link_id", link_id),
        field("uid", uid),
    ];
    assert(fields.deep_view() =~= seq![
        ("dest_path"@, dest_path@),
        ("link_id"@, link_id@),
        ("uid"@, uid@),
    ]);
    Request { shim: Shim::DownloadFile, fields }
}

/// Asks for a new folder.
pub fn create_folder(uid: &str, parent_link_id: &str, name: &str) -> (r: Request)
    ensures
        r@ == call(
            Shim::CreateFolder,
            seq![("name"@, name@), ("parent_link_id"@, parent_link_id@), ("uid"@, uid@)],
        ),
{
    let fields = vec![
        field("name", name),
        field("parent_link_id", parent_link_id),
        field("uid", uid),
    ];
    assert(fields.deep_view() =~= seq![
        ("name"@, name@),
        ("parent_link_id"@, parent_link_id@),
        ("uid"@, uid@),
    ]);
    Request { shim: Shim::CreateFolder, fields }
}

/// Asks to upload a local file into a folder under `name`.
pub fn upload_file(uid: &str, parent_link_id: &str, name: &str, src_path: &str) -> (r: Request)
    ensures
        r@ == call(
            Shim::UploadFile,
            seq![
                ("name"@, name@),
                ("parent_link_id"@, parent_link_id@),
                ("src_path"@, src_path@),
                ("uid"@, uid@),
            ],
        ),
{
    let fields = vec![
        field("name", name),
        field("parent_link_id", parent_link_id),
        field("src_path", src_path),
        field("uid", uid),
    ];
    assert(fields.deep_view() =~= seq![
        ("name"@, name@),
        ("parent_link_id"@, parent_link_id@),
        ("src_path"@, src_path@),
        ("uid"@, uid@),
    ]);
    Request { shim: Shim::UploadFile, fields }
}

/// Asks to move a link into the trash, a folder with all it holds.
pub fn trash_link(uid: &str, link_id: &str) -> (r: Request)
    ensures
        r@ == call(Shim::TrashLink, seq![("link_id"@, link_id@), ("uid"@, uid@)]),
{
    call2(Shim::TrashLink, "link_id", link_id, "uid", uid)
}

/// Asks to delete a link for good. A sync pass never does: it trashes, so that
/// the user can restore.
pub fn permanent_delete_link(uid: &str, link_id: &str) -> (r: Request)
    ensures
        r@ == call(Shim::PermanentDeleteLink, seq![("link_id"@, link_id@), ("uid"@, uid@)]),
{
    call2(Shim::PermanentDeleteLink, "link_id", link_id, "uid", uid)
}

/// A login carries the name and the password, and each of the two optional
/// members exactly where it holds something; it carries nothing else.
pub proof fn law_login_carries_what_was_entered(params: LoginParams)
    ensures
        ({
            let fields = login_fields(params);
            &&& fields.len() == 2 + (if params.mailbox_password@.len() > 0 {
                1int
            } else {
                0
            }) + (if params.two_fa@.len() > 0 {
                1int
            } else {
                0
            })
            &&& fields.contains(("username"@, params.username@))
            &&& fields.contains(("password"@, params.password@))
            &&& params.mailbox_password@.len() > 0 ==> fields.contains(
                ("mailbox_password"@, params.mailbox_password@),
            )
            &&& params.two_fa@.len() > 0 ==> fields.contains(("two_fa"@, params.two_fa@))
        }),
{
    let fields = login_fields(params);
    assert(fields[0] == ("username"@, params.username@));
    assert(fields[1] == ("password"@, params.password@));
    if params.mailbox_password@.len() > 0 {
        assert(fields[2] == ("mailbox_password"@, params.mailbox_password@));
    }
    if params.two_fa@.len() > 0 {
        assert(fields[fields.len() - 1] == ("two_fa"@, params.two_fa@));
    }
}

/// A call is of the entry point that it names, with the members that it has.
pub proof fn law_call_is_as_named(shim: Shim, fields: Seq<(Seq<char>, Seq<char>)>)
    ensures
        call(shim, fields).shim == shim,
        call(shim, fields).fields == fields,
{
}

/// Of an entry everything is told.
pub proof fn law_entry_is_told_whole(entry: Entry)
    ensures
        entry@.link_id == entry.link_id@,
        entry@.parent_link_id == entry.parent_link_id@,
        entry@.name == entry.name@,
        entry@.is_dir == entry.is_dir,
        entry@.size == entry.size,
        entry@.mod_time_unix == entry.mod_time_unix,
        entry@.mime_type == entry.mime_type@,
{
}

} // verus!
