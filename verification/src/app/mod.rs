//! The state behind the windows: what it is, what a message does to it, and
//! which screen it shows.

use crate::app::handlers::remotes::{
    ask, first, has_id, law_key_stands_for_the_first, position_of_id, typed,
};
use crate::domain::backend_events::{BackendEvent, EventTranslator, Operation};
use crate::domain::events::SyncEvent;
use crate::domain::ports::BackendClient;
use crate::domain::remote::{ProviderKind, Remote, RemoteId, SyncPolicy};
use crate::domain::run_state::RunState;
use crate::domain::sync::{SyncDir, SyncDirExclusion, SyncDirId};
use crate::infrastructure::translators::proton::{says_auth_expired, ProtonTranslator};
use crate::screens::{add_remote, main_page, remote_page};
use crate::text::{
    all_blank, as_folder, begins, blank, folder_prefix, law_begins_is_transitive,
    law_prefixes_are_nested, same, starts_with, trim, trimmed,
};
use crate::theme::Mode;
use std::collections::{HashMap, HashSet};
use std::time::Duration;
use vstd::prelude::*;
use vstd::string::*;

pub mod handlers;

verus! {

/// What all directories of one remote came to in one pass.
#[derive(Clone, Copy, Debug, PartialEq, Eq, Structural)]
pub enum PassVerdict {
    /// Every directory is in step.
    Clean,
    /// The provider limits the rate, so more cycles are skipped.
    Degraded,
    /// The pass ended for another reason.
    Aborted,
}

/// Something happened. `X` is what the parts of the window report that nothing
/// here looks into.
#[derive(Debug, PartialEq, Eq)]
pub enum Message<X> {
    Main(main_page::Msg),
    Remote(remote_page::Msg<X>),
    Settings(X),
    AddRemote(add_remote::Msg),
    AddRemoteResult(Result<RemoteId, String>),
    RemotesLoaded(Vec<Remote>),
    SyncDirsLoaded(RemoteId, Vec<SyncDir>),
    AllSyncDirsRefreshed(Vec<SyncDir>),
    ExclusionsLoaded(SyncDirId, Vec<SyncDirExclusion>),
    PolicySaved,
    SyncStarted(RemoteId),
    SyncFinished(RemoteId, PassVerdict),
    WorkerReady(X),
    SyncEventReceived(SyncEvent),
    Tick,
    TrayReady(X),
    TrayClick(X),
    SystemThemeChanged(Mode),
    Quit,
    WindowClosed(X),
}

/// Something that is asked for. What is asked for together is done in this
/// order; loads, logins and deletions run on the side, and what comes of them
/// is a message.
#[derive(Debug, PartialEq, Eq)]
pub enum Command<X> {
    /// Load the remotes; none, where that fails.
    LoadRemotes,
    /// Ask for the colour scheme of the desktop.
    LoadSystemTheme,
    /// Load the directories of a remote; none, where that fails.
    LoadSyncDirs(RemoteId),
    /// Load the directories of all remotes; none, where that fails.
    LoadAllSyncDirs,
    /// Start a pass.
    StartSync(RemoteId),
    /// Write a line to the log of a directory.
    PushLogLine(SyncDirId, String),
    /// Have the run states know the remote, and whether it is enabled.
    EnsureRemote(RemoteId, bool),
    /// Have the run states take up what they were before the login was needed.
    ReauthComplete(RemoteId),
    /// Have the run states know that the remote is enabled, or not.
    SetRemoteEnabled(RemoteId, bool),
    /// Have the run states forget the remote.
    RemoveRemote(RemoteId),
    /// Have the router forget the client of a name.
    UnregisterClient(String),
    /// Write the policy of a remote to the database.
    SetPolicy(RemoteId, SyncPolicy),
    /// Log in. A login again is for the remote of this key, if there is one.
    LogIn(add_remote::Login, Option<RemoteId>),
    /// Delete the remote of this name, and then load the remotes.
    DeleteRemote(String),
    /// Delete the link between a local and a remote path.
    DeleteSyncDir(String, String),
    /// Tell the tray where things stand.
    PushTrayStatus,
    /// Do what this message is about, which is nothing of this state.
    Elsewhere(Message<X>),
}

/// A [`Command`] as a mathematical value.
pub enum CommandView<X> {
    LoadRemotes,
    LoadSystemTheme,
    LoadSyncDirs(RemoteId),
    LoadAllSyncDirs,
    StartSync(RemoteId),
    PushLogLine(SyncDirId, Seq<char>),
    EnsureRemote(RemoteId, bool),
    ReauthComplete(RemoteId),
    SetRemoteEnabled(RemoteId, bool),
    RemoveRemote(RemoteId),
    UnregisterClient(Seq<char>),
    SetPolicy(RemoteId, SyncPolicy),
    LogIn(add_remote::LoginView, Option<RemoteId>),
    DeleteRemote(Seq<char>),
    DeleteSyncDir(Seq<char>, Seq<char>),
    PushTrayStatus,
    Elsewhere(Message<X>),
}

impl<X> View for Command<X> {
    type V = CommandView<X>;

    open spec fn view(&self) -> CommandView<X> {
        match self {
            Command::LoadRemotes => CommandView::LoadRemotes,
            Command::LoadSystemTheme => CommandView::LoadSystemTheme,
            Command::LoadSyncDirs(id) => CommandView::LoadSyncDirs(*id),
            Command::LoadAllSyncDirs => CommandView::LoadAllSyncDirs,
            Command::StartSync(id) => CommandView::StartSync(*id),
            Command::PushLogLine(id, line) => CommandView::PushLogLine(*id, line@),
            Command::EnsureRemote(id, enabled) => CommandView::EnsureRemote(*id, *enabled),
            Command::ReauthComplete(id) => CommandView::ReauthComplete(*id),
            Command::SetRemoteEnabled(id, enabled) => CommandView::SetRemoteEnabled(*id, *enabled),
            Command::RemoveRemote(id) => CommandView::RemoveRemote(*id),
            Command::UnregisterClient(name) => CommandView::UnregisterClient(name@),
            Command::SetPolicy(id, policy) => CommandView::SetPolicy(*id, *policy),
            Command::LogIn(login, id) => CommandView::LogIn(login@, *id),
            Command::DeleteRemote(name) => CommandView::DeleteRemote(name@),
            Command::DeleteSyncDir(local, remote) => CommandView::DeleteSyncDir(local@, remote@),
            Command::PushTrayStatus => CommandView::PushTrayStatus,
            Command::Elsewhere(message) => CommandView::Elsewhere(*message),
        }
    }
}

impl<X> DeepView for Command<X> {
    type V = CommandView<X>;

    open spec fn deep_view(&self) -> CommandView<X> {
        self@
    }
}

/// The state behind the windows. Maps and sets go by the number of a key.
pub struct CelesteApp {
    pub remotes: Vec<Remote>,
    /// The directories of each remote.
    pub sync_dirs: HashMap<i64, Vec<SyncDir>>,
    pub selected: Option<RemoteId>,
    /// The remotes whose pass is running.
    pub syncing: HashSet<i64>,
    /// The directories of all remotes.
    pub all_known_sync_dirs: Vec<SyncDir>,
    /// The directory whose exclusion panel is open.
    pub exclusion_panel: Option<SyncDirId>,
    /// What the user left out of each directory.
    pub sync_dir_exclusions: HashMap<i64, Vec<SyncDirExclusion>>,
    /// The text in the form that leaves something out of each directory.
    pub draft_exclusion: HashMap<i64, String>,
    /// When the last pass of each remote ended, in milliseconds of a clock that
    /// only runs forward.
    pub last_sync_at: HashMap<i64, u64>,
    /// The remotes that are to be synced again once their pass has ended.
    pub refresh_requested_after: HashSet<i64>,
    /// The local and the remote path in the form that adds a directory.
    pub sync_dir_drafts: HashMap<i64, (String, String)>,
    /// The form that adds a remote, while it is shown.
    pub add_remote_draft: Option<add_remote::Draft>,
    pub system_theme: Mode,
    /// What is about to be deleted, while the dialog asks.
    pub pending_delete: Option<remote_page::PendingDelete>,
}

/// A [`CelesteApp`] as a mathematical value.
#[verifier::ext_equal]
pub struct AppView {
    pub remotes: Seq<Remote>,
    pub sync_dirs: Map<i64, Vec<SyncDir>>,
    pub selected: Option<RemoteId>,
    pub syncing: Set<i64>,
    pub all_known_sync_dirs: Seq<SyncDir>,
    pub exclusion_panel: Option<SyncDirId>,
    pub sync_dir_exclusions: Map<i64, Vec<SyncDirExclusion>>,
    pub draft_exclusion: Map<i64, String>,
    pub last_sync_at: Map<i64, u64>,
    pub refresh_requested_after: Set<i64>,
    pub sync_dir_drafts: Map<i64, (String, String)>,
    pub add_remote_draft: Option<add_remote::DraftView>,
    pub system_theme: Mode,
    pub pending_delete: Option<remote_page::PendingDeleteView>,
}

impl View for CelesteApp {
    type V = AppView;

    open spec fn view(&self) -> AppView {
        AppView {
            remotes: self.remotes@,
            sync_dirs: self.sync_dirs@,
            selected: self.selected,
            syncing: self.syncing@,
            all_known_sync_dirs: self.all_known_sync_dirs@,
            exclusion_panel: self.exclusion_panel,
            sync_dir_exclusions: self.sync_dir_exclusions@,
            draft_exclusion: self.draft_exclusion@,
            last_sync_at: self.last_sync_at@,
            refresh_requested_after: self.refresh_requested_after@,
            sync_dir_drafts: self.sync_dir_drafts@,
            add_remote_draft: self.add_remote_draft.deep_view(),
            system_theme: self.system_theme,
            pending_delete: self.pending_delete.deep_view(),
        }
    }
}

/// The state at the start.
pub open spec fn blank_state() -> AppView {
    AppView {
        remotes: Seq::empty(),
        sync_dirs: Map::empty(),
        selected: None,
        syncing: Set::empty(),
        all_known_sync_dirs: Seq::empty(),
        exclusion_panel: None,
        sync_dir_exclusions: Map::empty(),
        draft_exclusion: Map::empty(),
        last_sync_at: Map::empty(),
        refresh_requested_after: Set::empty(),
        sync_dir_drafts: Map::empty(),
        add_remote_draft: None,
        system_theme: Mode::Unset,
        pending_delete: None,
    }
}

impl CelesteApp {
    /// The state at the start, and what is asked for then.
    pub fn new<X>() -> (r: (Self, Vec<Command<X>>))
        ensures
            r.0@ == blank_state(),
            r.1.deep_view() == seq![CommandView::<X>::LoadRemotes, CommandView::LoadSystemTheme],
    {
        let state = CelesteApp {
            remotes: Vec::new(),
            sync_dirs: HashMap::new(),
            selected: None,
            syncing: HashSet::new(),
            all_known_sync_dirs: Vec::new(),
            exclusion_panel: None,
            sync_dir_exclusions: HashMap::new(),
            draft_exclusion: HashMap::new(),
            last_sync_at: HashMap::new(),
            refresh_requested_after: HashSet::new(),
            sync_dir_drafts: HashMap::new(),
            add_remote_draft: None,
            system_theme: Mode::Unset,
            pending_delete: None,
        };
        assert(state@ =~= blank_state());
        let mut commands: Vec<Command<X>> = Vec::new();
        commands.push(Command::LoadRemotes);
        commands.push(Command::LoadSystemTheme);
        assert(commands.deep_view() =~= seq![
            CommandView::<X>::LoadRemotes,
            CommandView::LoadSystemTheme,
        ]);
        (state, commands)
    }

    /// The title of the window.
    pub fn title(&self) -> (r: String)
        ensures
            r@ == "Celeste"@,
    {
        "Celeste".to_owned()
    }
}

impl AppView {
    /// The state and what is asked for when `message` comes. What it is in a
    /// message that remotes were loaded depends on the client, and is said of
    /// `update`.
    pub open spec fn dispatched<X>(self, message: Message<X>) -> (AppView, Seq<CommandView<X>>) {
        match message {
            Message::Main(main_page::Msg::Selected(id)) => self.choosing(id),
            Message::Main(main_page::Msg::RefreshAll) => (self, self.refreshing_all()),
            Message::Main(main_page::Msg::AddRemote) => (
                AppView { add_remote_draft: Some(add_remote::empty_form()), ..self },
                seq![],
            ),
            Message::AddRemote(sub) => self.filling(sub),
            Message::AddRemoteResult(Ok(id)) => (self.logged_in(id), self.after_login(id)),
            Message::AddRemoteResult(Err(msg)) => (self.login_failed(msg@), seq![]),
            Message::Remote(remote_page::Msg::Back) => (AppView { selected: None, ..self }, seq![]),
            Message::Remote(remote_page::Msg::RefreshNow(id)) => self.refreshing(id),
            Message::Remote(remote_page::Msg::RequestDeleteRemote(id, name)) => (
                AppView {
                    pending_delete: Some(remote_page::PendingDeleteView::Remote(id, name@)),
                    ..self
                },
                seq![],
            ),
            Message::Remote(remote_page::Msg::DeleteRemote(id, name)) => (
                self.without(id),
                self.deleting(id, name@),
            ),
            Message::Remote(remote_page::Msg::ConfirmDelete) => self.confirming(),
            Message::Remote(remote_page::Msg::CancelDelete) => (
                AppView { pending_delete: None, ..self },
                seq![],
            ),
            Message::Remote(remote_page::Msg::Reauthenticate(id, name)) => (
                AppView { add_remote_draft: Some(self.reauth_form(id, name@)), ..self },
                seq![],
            ),
            Message::Remote(remote_page::Msg::RequestDeleteSyncDir(local, remote)) => (
                AppView {
                    pending_delete: Some(
                        remote_page::PendingDeleteView::SyncDir { local: local@, remote: remote@ },
                    ),
                    ..self
                },
                seq![],
            ),
            Message::Remote(remote_page::Msg::DeleteSyncDir(local, remote)) => (
                self,
                seq![CommandView::DeleteSyncDir(local@, remote@)],
            ),
            Message::Remote(remote_page::Msg::Settings(sub)) => (
                self,
                seq![CommandView::Elsewhere(Message::Settings(sub))],
            ),
            Message::PolicySaved => (self, seq![]),
            other => (self, seq![CommandView::Elsewhere(other)]),
        }
    }
}

impl CelesteApp {
    /// Does what `message` asks for, and has the tray told where things stand
    /// then. `rclone` is asked for the kinds of remotes that were loaded, and
    /// `kind_of` reads its answers.
    pub fn update<X, C: BackendClient + ?Sized, K: Fn(&String) -> Option<ProviderKind>>(
        &mut self,
        message: Message<X>,
        rclone: &C,
        kind_of: &K,
    ) -> (r: Vec<Command<X>>)
        requires
            forall|t: &String| #[trigger] call_requires(*kind_of, (t,)),
        ensures
            match message {
                Message::RemotesLoaded(remotes) => {
                    &&& final(self)@ == (AppView { remotes: final(self).remotes@, ..old(self)@ })
                    &&& final(self).remotes@.len() == remotes@.len()
                    &&& forall|i: int|
                        0 <= i < remotes@.len() ==> typed(
                            rclone,
                            *kind_of,
                            remotes@[i],
                            #[trigger] final(self).remotes@[i],
                        )
                    &&& r.deep_view() == final(self).remotes@.map_values(
                        |r: Remote| CommandView::<X>::EnsureRemote(r.id, r.policy.enabled),
                    ).push(CommandView::PushTrayStatus)
                },
                _ => {
                    &&& final(self)@ == old(self)@.dispatched(message).0
                    &&& r.deep_view() == old(self)@.dispatched(message).1.push(
                        CommandView::PushTrayStatus,
                    )
                },
            },
    {
        let ghost before = self@;
        let ghost came = message;
        let mut commands: Vec<Command<X>> = match message {
            Message::RemotesLoaded(remotes) => self.handle_remotes_loaded(remotes, rclone, kind_of),
            Message::Main(main_page::Msg::Selected(id)) => self.handle_remote_selected(id),
            Message::Main(main_page::Msg::RefreshAll) => self.handle_refresh_all(),
            Message::Main(main_page::Msg::AddRemote) => self.handle_open_add_remote(),
            Message::AddRemote(sub) => self.handle_add_remote_msg(sub),
            Message::AddRemoteResult(Ok(id)) => self.handle_add_remote_result_ok(id),
            Message::AddRemoteResult(Err(msg)) => self.handle_add_remote_result_err(msg),
            Message::Remote(remote_page::Msg::Back) => self.handle_remote_back(),
            Message::Remote(remote_page::Msg::RefreshNow(id)) => self.handle_refresh_now(id),
            Message::Remote(remote_page::Msg::RequestDeleteRemote(id, name)) => {
                self.handle_request_delete_remote(id, name)
            },
            Message::Remote(remote_page::Msg::DeleteRemote(id, name)) => {
                self.handle_delete_remote(id, name)
            },
            Message::Remote(remote_page::Msg::ConfirmDelete) => self.handle_confirm_delete(),
            Message::Remote(remote_page::Msg::CancelDelete) => self.handle_cancel_delete(),
            Message::Remote(remote_page::Msg::Reauthenticate(id, name)) => {
                self.handle_reauthenticate(id, name)
            },
            Message::Remote(remote_page::Msg::RequestDeleteSyncDir(local, remote)) => {
                self.handle_request_delete_sync_dir(local, remote)
            },
            Message::Remote(remote_page::Msg::DeleteSyncDir(local, remote)) => {
                let mut one: Vec<Command<X>> = Vec::new();
                ask(&mut one, Command::DeleteSyncDir(local, remote));
                one
            },
            Message::Remote(remote_page::Msg::Settings(sub)) => {
                let mut one: Vec<Command<X>> = Vec::new();
                ask(&mut one, Command::Elsewhere(Message::Settings(sub)));
                one
            },
            Message::PolicySaved => Vec::new(),
            other => {
                let mut one: Vec<Command<X>> = Vec::new();
                ask(&mut one, Command::Elsewhere(other));
                one
            },
        };
        assert(!(came is RemotesLoaded) ==> commands.deep_view() =~= before.dispatched(came).1);
        ask(&mut commands, Command::PushTrayStatus);
        commands
    }
}

/// The screen that is shown.
#[derive(Debug, PartialEq, Eq)]
pub enum Screen {
    /// The form that adds a remote.
    AddRemote,
    /// The page of a remote.
    Remote(remote_page::Page),
    /// The list of remotes.
    Main,
}

/// A [`Screen`] as a mathematical value.
pub enum ScreenView {
    AddRemote,
    Remote(remote_page::PageView),
    Main,
}

impl View for Screen {
    type V = ScreenView;

    open spec fn view(&self) -> ScreenView {
        match self {
            Screen::AddRemote => ScreenView::AddRemote,
            Screen::Remote(page) => ScreenView::Remote(page@),
            Screen::Main => ScreenView::Main,
        }
    }
}

impl AppView {
    /// Where the remote stands whose page is shown: the one that was chosen, as
    /// long as it is there, and no form is open.
    pub open spec fn shown(self) -> Option<int> {
        match (self.add_remote_draft, self.selected) {
            (None, Some(id)) => first(self.remotes, has_id(id)),
            _ => None,
        }
    }

    /// The text in the form that adds a directory to the remote `id`.
    pub open spec fn draft_dirs(self, id: RemoteId) -> (Seq<char>, Seq<char>) {
        if self.sync_dir_drafts.contains_key(id.0) {
            (self.sync_dir_drafts[id.0].0@, self.sync_dir_drafts[id.0].1@)
        } else {
            (Seq::empty(), Seq::empty())
        }
    }
}

impl CelesteApp {
    /// What the page of a remote knows of its directories, when they stand at
    /// `status`.
    pub open spec fn known<'a>(
        &'a self,
        status: &'a HashMap<i64, RunState>,
        needs_reauth: bool,
    ) -> remote_page::Known<'a> {
        remote_page::Known {
            all_known_sync_dirs: &self.all_known_sync_dirs,
            status,
            exclusion_panel: self.exclusion_panel,
            exclusions: &self.sync_dir_exclusions,
            draft_exclusion: &self.draft_exclusion,
            needs_reauth,
        }
    }

    /// The screen that is shown, when the directories of the shown remote stand
    /// at `status`, its next pass is due in `eta`, and it needs a login or not.
    pub open spec fn screen(
        &self,
        status: &HashMap<i64, RunState>,
        eta: Option<(Duration, bool)>,
        needs_reauth: bool,
    ) -> ScreenView {
        if self.add_remote_draft is Some {
            ScreenView::AddRemote
        } else {
            match self@.shown() {
                Some(i) => {
                    let remote = self.remotes@[i];
                    ScreenView::Remote(
                        remote_page::page(
                            remote,
                            self@.dirs_of(remote.id),
                            self.known(status, needs_reauth),
                            self@.draft_dirs(remote.id).0,
                            self@.draft_dirs(remote.id).1,
                            eta,
                            self@.pending_delete,
                        ),
                    )
                },
                None => ScreenView::Main,
            }
        }
    }

    /// The remote whose page is shown.
    pub fn shown_remote(&self) -> (r: Option<RemoteId>)
        ensures
            r == (match self@.shown() {
                Some(i) => Some(self.remotes@[i].id),
                None => None,
            }),
    {
        if self.add_remote_draft.is_some() {
            return None;
        }
        match self.selected {
            Some(id) => match position_of_id(&self.remotes, id) {
                Some(i) => Some(self.remotes[i].id),
                None => None,
            },
            None => None,
        }
    }

    /// The screen that is shown.
    pub fn view_screen(
        &self,
        status: &HashMap<i64, RunState>,
        next_sync_eta: Option<(Duration, bool)>,
        needs_reauth: bool,
    ) -> (r: Screen)
        ensures
            r@ == self.screen(status, next_sync_eta, needs_reauth),
    {
        broadcast use vstd::std_specs::hash::group_hash_axioms;

        if self.add_remote_draft.is_some() {
            return Screen::AddRemote;
        }
        let at = match self.selected {
            Some(id) => position_of_id(&self.remotes, id),
            None => None,
        };
        match at {
            Some(i) => {
                let remote = &self.remotes[i];
                let none: Vec<SyncDir> = Vec::new();
                let dirs: &Vec<SyncDir> = match self.sync_dirs.get(&remote.id.0) {
                    Some(v) => v,
                    None => &none,
                };
                assert(dirs@ =~= self@.dirs_of(remote.id));
                let draft: (&str, &str) = match self.sync_dir_drafts.get(&remote.id.0) {
                    Some(d) => (d.0.as_str(), d.1.as_str()),
                    None => ("", ""),
                };
                proof {
                    reveal_strlit("");
                    assert(draft.0@ =~= self@.draft_dirs(remote.id).0);
                    assert(draft.1@ =~= self@.draft_dirs(remote.id).1);
                }
                let known = remote_page::Known {
                    all_known_sync_dirs: &self.all_known_sync_dirs,
                    status,
                    exclusion_panel: self.exclusion_panel,
                    exclusions: &self.sync_dir_exclusions,
                    draft_exclusion: &self.draft_exclusion,
                    needs_reauth,
                };
                Screen::Remote(
                    remote_page::view(
                        remote,
                        dirs,
                        &known,
                        draft,
                        next_sync_eta,
                        &self.pending_delete,
                    ),
                )
            },
            None => Screen::Main,
        }
    }
}

/// Whether `msg` says that only a new login helps, at whatever backend it came
/// from: at one that `rclone` reads the messages of, or at Proton.
pub fn is_auth_failure<R: EventTranslator>(rclone: &R, msg: &str) -> (r: bool)
    ensures
        r ==> says_auth_expired(msg@) || exists|event: BackendEvent|
            call_ensures(R::classify, (rclone, Operation::Auth, msg), event) && event is AuthExpired,
        !r ==> !says_auth_expired(msg@) && exists|event: BackendEvent|
            call_ensures(R::classify, (rclone, Operation::Auth, msg), event) && !(
            event is AuthExpired),
{
    rclone.is_auth_failure(msg) || ProtonTranslator.is_auth_failure(msg)
}

/// `path` is the directory `dir` or lies in it. Whether `dir` is written with a
/// slash at its end, as the root always is, does not matter for that.
pub open spec fn within(dir: Seq<char>, path: Seq<char>) -> bool {
    path == dir || begins(path, as_folder(dir))
}

/// Whether two local paths overlap: they are the same, or one lies in the
/// other.
pub fn local_paths_overlap(a: &str, b: &str) -> (r: bool)
    ensures
        r == (within(a@, b@) || within(b@, a@)),
{
    same(a, b) || starts_with(b, folder_prefix(a).as_str()) || starts_with(
        a,
        folder_prefix(b).as_str(),
    )
}

/// A folder as a prefix begins with the path of the folder.
proof fn lemma_folder_begins(dir: Seq<char>)
    ensures
        begins(as_folder(dir), dir),
{
    assert(as_folder(dir).subrange(0, dir.len() as int) =~= dir);
}

/// What is within a directory that is within another is within that one.
pub proof fn law_within_is_transitive(a: Seq<char>, b: Seq<char>, c: Seq<char>)
    requires
        within(a, b),
        within(b, c),
    ensures
        within(a, c),
{
    if b != a && c != b {
        lemma_folder_begins(b);
        law_begins_is_transitive(c, as_folder(b), b);
        law_begins_is_transitive(c, b, as_folder(a));
    }
}

/// Every absolute path is within the root.
pub proof fn law_root_holds_all(path: Seq<char>)
    requires
        path.len() > 0,
        path[0] == '/',
    ensures
        within(seq!['/'], path),
{
    assert(path.subrange(0, 1) =~= seq!['/']);
}

/// Directories that do not overlap have nothing in common: no path is within
/// both.
pub proof fn law_disjoint_trees(a: Seq<char>, b: Seq<char>, path: Seq<char>)
    requires
        within(a, path),
        within(b, path),
    ensures
        within(a, b) || within(b, a),
{
    if path != a && path != b {
        if as_folder(a).len() <= as_folder(b).len() {
            lemma_nested_folders(a, b, path);
        } else {
            lemma_nested_folders(b, a, path);
        }
    }
}

/// Of two folders that hold the same path, the longer is within the other, or
/// they differ by a slash.
proof fn lemma_nested_folders(a: Seq<char>, b: Seq<char>, path: Seq<char>)
    requires
        begins(path, as_folder(a)),
        begins(path, as_folder(b)),
        as_folder(a).len() <= as_folder(b).len(),
    ensures
        within(a, b) || within(b, a),
{
    let (fa, fb) = (as_folder(a), as_folder(b));
    law_prefixes_are_nested(path, fb, fa);
    assert(fb.subrange(0, fa.len() as int) == fa);
    if fa.len() <= b.len() {
        lemma_folder_begins(b);
        law_prefixes_are_nested(fb, b, fa);
    } else {
        assert(fa =~= fb);
        if a.len() == fa.len() {
            assert(a.subrange(0, fb.len() as int) =~= fb);
        } else {
            assert(a =~= b) by {
                assert(a =~= fa.drop_last());
                assert(b =~= fb.drop_last());
            }
        }
    }
}

/// The service of the form that stands for `p`.
pub open spec fn form_provider(p: ProviderKind) -> add_remote::ProviderKind {
    match p {
        ProviderKind::ProtonDrive => add_remote::ProviderKind::ProtonDrive,
        ProviderKind::GDrive => add_remote::ProviderKind::GDrive,
        ProviderKind::Dropbox => add_remote::ProviderKind::Dropbox,
        ProviderKind::PCloud => add_remote::ProviderKind::PCloud,
        ProviderKind::WebDav => add_remote::ProviderKind::WebDav,
        ProviderKind::Nextcloud => add_remote::ProviderKind::Nextcloud,
        ProviderKind::Owncloud => add_remote::ProviderKind::Owncloud,
    }
}

/// The service of the form that stands for `p`. The form offers all of them.
pub fn map_domain_provider_to_add_remote(p: ProviderKind) -> (r: Option<add_remote::ProviderKind>)
    ensures
        r == Some(form_provider(p)),
{
    match p {
        ProviderKind::ProtonDrive => Some(add_remote::ProviderKind::ProtonDrive),
        ProviderKind::GDrive => Some(add_remote::ProviderKind::GDrive),
        ProviderKind::Dropbox => Some(add_remote::ProviderKind::Dropbox),
        ProviderKind::PCloud => Some(add_remote::ProviderKind::PCloud),
        ProviderKind::WebDav => Some(add_remote::ProviderKind::WebDav),
        ProviderKind::Nextcloud => Some(add_remote::ProviderKind::Nextcloud),
        ProviderKind::Owncloud => Some(add_remote::ProviderKind::Owncloud),
    }
}

/// The fonts that are looked for, beside the built-in one: for emoji, for
/// symbols, for most scripts, and of a fixed width.
pub const FONT_QUERIES: [&'static str; 6] = [
    "Noto Color Emoji",
    "Noto Sans Symbols 2",
    "Noto Sans",
    "sans-serif",
    "emoji",
    "monospace",
];

/// What there is among `found`, in this order.
pub open spec fn present(found: Seq<Option<Vec<u8>>>) -> Seq<Vec<u8>>
    decreases found.len(),
{
    if found.len() == 0 {
        Seq::empty()
    } else {
        match found.last() {
            Some(font) => present(found.drop_last()).push(font),
            None => present(found.drop_last()),
        }
    }
}

/// The fonts that `read` finds, one for each query that it finds any for.
pub fn fallback_fonts<F: Fn(&'static str) -> Option<Vec<u8>>>(read: &F) -> (r: Vec<Vec<u8>>)
    requires
        forall|query: &'static str| #[trigger] call_requires(*read, (query,)),
    ensures
        exists|found: Seq<Option<Vec<u8>>>|
            {
                &&& found.len() == FONT_QUERIES@.len()
                &&& forall|i: int|
                    0 <= i < found.len() ==> call_ensures(
                        *read,
                        (FONT_QUERIES@[i],),
                        #[trigger] found[i],
                    )
                &&& r@ == #[trigger] present(found)
            },
{
    let queries: [&'static str; 6] = FONT_QUERIES;
    let ghost mut found: Seq<Option<Vec<u8>>> = Seq::empty();
    let mut fonts: Vec<Vec<u8>> = Vec::new();
    let mut i: usize = 0;
    while i < 6
        invariant
            i <= 6,
            queries@ == FONT_QUERIES@,
            FONT_QUERIES@.len() == 6,
            forall|query: &'static str| #[trigger] call_requires(*read, (query,)),
            found.len() == i,
            forall|k: int|
                0 <= k < i ==> call_ensures(*read, (FONT_QUERIES@[k],), #[trigger] found[k]),
            fonts@ == present(found),
        decreases 6 - i,
    {
        let answer = read(queries[i]);
        proof {
            let before = found;
            found = found.push(answer);
            assert(found.drop_last() =~= before);
        }
        match answer {
            Some(font) => {
                fonts.push(font);
            },
            None => {},
        }
        i += 1;
    }
    fonts
}

/// The file that `fc-match` names: what it wrote, without white space around
/// it, where it succeeded and wrote any text at all.
pub open spec fn named_file(success: bool, written: Option<Seq<char>>) -> Option<Seq<char>> {
    match written {
        Some(text) => if success && !all_blank(text) {
            Some(trimmed(text, blank()))
        } else {
            None
        },
        None => None,
    }
}

/// The file that `fc-match` names. `written` is its output, where that is text.
pub fn matched_file(success: bool, written: &Option<String>) -> (r: Option<String>)
    ensures
        r.deep_view() == named_file(success, written.deep_view()),
{
    match written {
        Some(text) => {
            let path = trim(text.as_str());
            if !success || path.as_str().is_empty() {
                None
            } else {
                Some(path)
            }
        },
        None => None,
    }
}

/// What is nothing of this state is handed on as it came, and changes nothing;
/// what the settings on a page report is handed on as a report of the settings.
pub proof fn law_other_messages_are_handed_on<X>(state: AppView, message: Message<X>, x: X)
    ensures
        !(message is Main) && !(message is Remote) && !(message is AddRemote) && !(
        message is AddRemoteResult) && !(message is PolicySaved) ==> state.dispatched(message) == (
            state,
            seq![CommandView::Elsewhere(message)],
        ),
        state.dispatched::<X>(Message::PolicySaved) == (state, Seq::<CommandView<X>>::empty()),
        state.dispatched::<X>(Message::Remote(remote_page::Msg::Settings(x))) == (
            state,
            seq![CommandView::<X>::Elsewhere(Message::Settings(x))],
        ),
{
}

/// At the start there is nothing: no remote, no pass, no form and no dialog.
pub proof fn law_starts_with_nothing(key: i64)
    ensures
        blank_state().remotes.len() == 0,
        blank_state().all_known_sync_dirs.len() == 0,
        blank_state().selected is None,
        blank_state().exclusion_panel is None,
        blank_state().add_remote_draft is None,
        blank_state().pending_delete is None,
        !blank_state().syncing.contains(key),
        !blank_state().refresh_requested_after.contains(key),
        !blank_state().sync_dirs.contains_key(key),
        !blank_state().sync_dir_exclusions.contains_key(key),
        !blank_state().draft_exclusion.contains_key(key),
        !blank_state().last_sync_at.contains_key(key),
        !blank_state().sync_dir_drafts.contains_key(key),
        blank_state().system_theme == Mode::Unset,
{
}

/// The page of a remote is shown exactly where one is chosen that is there, and
/// no form is open; it is the first of its key.
pub proof fn law_chosen_remote_is_shown(state: AppView)
    ensures
        match state.shown() {
            Some(i) => {
                &&& state.add_remote_draft is None
                &&& 0 <= i < state.remotes.len()
                &&& state.selected == Some(state.remotes[i].id)
                &&& forall|k: int|
                    0 <= k < i ==> (#[trigger] state.remotes[k]).id != state.remotes[i].id
            },
            None => state.add_remote_draft is Some || state.selected is None || forall|k: int|
                0 <= k < state.remotes.len() ==> Some((#[trigger] state.remotes[k]).id)
                    != state.selected,
        },
{
    match state.selected {
        Some(id) => {
            law_key_stands_for_the_first(state.remotes, id);
        },
        None => {},
    }
}

/// A form goes before any page; the page that is shown is that of the remote
/// that is, and without one the list of remotes is shown.
pub proof fn law_screen_is_of_what_is_shown(
    app: CelesteApp,
    status: &HashMap<i64, RunState>,
    eta: Option<(Duration, bool)>,
    needs_reauth: bool,
)
    ensures
        app.screen(status, eta, needs_reauth) is AddRemote <==> app.add_remote_draft is Some,
        app.screen(status, eta, needs_reauth) is Remote <==> app@.shown() is Some,
        app.screen(status, eta, needs_reauth) matches ScreenView::Remote(page) ==> (
        app@.shown() matches Some(i) && page == remote_page::page(
            app.remotes@[i],
            if app.sync_dirs@.contains_key(app.remotes@[i].id.0) {
                app.sync_dirs@[app.remotes@[i].id.0]@
            } else {
                Seq::empty()
            },
            app.known(status, needs_reauth),
            if app.sync_dir_drafts@.contains_key(app.remotes@[i].id.0) {
                app.sync_dir_drafts@[app.remotes@[i].id.0].0@
            } else {
                Seq::empty()
            },
            if app.sync_dir_drafts@.contains_key(app.remotes@[i].id.0) {
                app.sync_dir_drafts@[app.remotes@[i].id.0].1@
            } else {
                Seq::empty()
            },
            eta,
            app.pending_delete.deep_view(),
        )),
{
}

/// A page knows what the state knows.
pub proof fn law_page_knows_the_state<'a>(
    app: &'a CelesteApp,
    status: &'a HashMap<i64, RunState>,
    needs_reauth: bool,
)
    ensures
        ({
            let known = app.known(status, needs_reauth);
            &&& known.all_known_sync_dirs@ == app.all_known_sync_dirs@
            &&& known.status@ == status@
            &&& known.exclusion_panel == app.exclusion_panel
            &&& known.exclusions@ == app.sync_dir_exclusions@
            &&& known.draft_exclusion@ == app.draft_exclusion@
            &&& known.needs_reauth == needs_reauth
        }),
{
}

/// What lies in a directory is what its path and a slash come before, and the
/// directory itself; a slash at the end of the directory changes nothing of what
/// lies deeper.
pub proof fn law_within_by_the_slash(dir: Seq<char>, rest: Seq<char>, path: Seq<char>)
    ensures
        within(dir, dir),
        within(dir, dir + seq!['/'] + rest),
        dir.len() > 0 && dir.last() == '/' ==> within(dir, dir + rest),
        within(dir, path) ==> path == dir || (path.len() > dir.len() || dir.last() == '/') && begins(
            path,
            dir,
        ),
        within(dir, path) && path.len() > dir.len() ==> path[dir.len() as int] == '/' || (dir.len()
            > 0 && dir.last() == '/'),
{
    let below = dir + seq!['/'] + rest;
    assert(below.subrange(0, as_folder(dir).len() as int) =~= as_folder(dir));
    if dir.len() > 0 && dir.last() == '/' {
        assert((dir + rest).subrange(0, dir.len() as int) =~= dir);
    }
    if begins(path, as_folder(dir)) {
        lemma_folder_begins(dir);
        law_begins_is_transitive(path, as_folder(dir), dir);
        if dir.len() == 0 || dir.last() != '/' {
            assert(path.subrange(0, as_folder(dir).len() as int)[dir.len() as int] == '/');
        }
    }
}

/// Each service of a remote has its own in the form, of the same name.
pub proof fn law_form_offers_every_service(p: ProviderKind, q: ProviderKind)
    ensures
        form_provider(p) == form_provider(q) ==> p == q,
        form_provider(p) is ProtonDrive <==> p is ProtonDrive,
        form_provider(p) is GDrive <==> p is GDrive,
        form_provider(p) is Dropbox <==> p is Dropbox,
        form_provider(p) is PCloud <==> p is PCloud,
        form_provider(p) is WebDav <==> p is WebDav,
        form_provider(p) is Nextcloud <==> p is Nextcloud,
        form_provider(p) is Owncloud <==> p is Owncloud,
{
}

/// Of the fonts that were looked for, those that were found are taken, in their
/// order.
pub proof fn law_found_fonts_are_taken(found: Seq<Option<Vec<u8>>>, font: Vec<u8>, i: int)
    ensures
        present(Seq::empty()).len() == 0,
        present(found.push(None)) == present(found),
        present(found.push(Some(font))) == present(found).push(font),
        0 <= i < found.len() && found[i] is Some ==> present(found).contains(found[i]->0),
    decreases found.len(),
{
    assert(found.push(None).drop_last() =~= found);
    assert(found.push(Some(font)).drop_last() =~= found);
    if 0 <= i < found.len() && found[i] is Some {
        let front = found.drop_last();
        if i < front.len() {
            law_found_fonts_are_taken(front, font, i);
            let k = choose|k: int|
                0 <= k < present(front).len() && present(front)[k] == found[i]->0;
            assert(present(found)[k] == found[i]->0);
        } else {
            assert(present(found)[present(found).len() - 1] == found[i]->0);
        }
    }
}

/// A file is named exactly where the search succeeded and wrote more than white
/// space; it is what was written without the white space around it.
pub proof fn law_named_file_is_what_was_written(success: bool, text: Seq<char>)
    ensures
        named_file(success, None) is None,
        named_file(success, Some(text)) is Some <==> success && !all_blank(text),
        named_file(success, Some(text)) matches Some(file) ==> file == trimmed(text, blank())
            && file.len() > 0,
{
}

/// The fonts that are looked for: for emoji and symbols, for most scripts, and
/// of a fixed width, each once.
pub proof fn law_fonts_that_are_looked_for()
    ensures
        FONT_QUERIES@.len() == 6,
        FONT_QUERIES@[0]@ == "Noto Color Emoji"@,
        FONT_QUERIES@[1]@ == "Noto Sans Symbols 2"@,
        FONT_QUERIES@[2]@ == "Noto Sans"@,
        FONT_QUERIES@[3]@ == "sans-serif"@,
        FONT_QUERIES@[4]@ == "emoji"@,
        FONT_QUERIES@[5]@ == "monospace"@,
{
}

/// Of what is asked for everything is told.
pub proof fn law_commands_are_told_whole<X>(
    id: RemoteId,
    dir: SyncDirId,
    flag: bool,
    policy: SyncPolicy,
    login: add_remote::Login,
    target: Option<RemoteId>,
    a: String,
    b: String,
    message: Message<X>,
)
    ensures
        Command::<X>::LoadRemotes@ == CommandView::<X>::LoadRemotes,
        Command::<X>::LoadSystemTheme@ == CommandView::<X>::LoadSystemTheme,
        Command::<X>::LoadAllSyncDirs@ == CommandView::<X>::LoadAllSyncDirs,
        Command::<X>::PushTrayStatus@ == CommandView::<X>::PushTrayStatus,
        Command::<X>::LoadSyncDirs(id)@ == CommandView::<X>::LoadSyncDirs(id),
        Command::<X>::StartSync(id)@ == CommandView::<X>::StartSync(id),
        Command::<X>::ReauthComplete(id)@ == CommandView::<X>::ReauthComplete(id),
        Command::<X>::RemoveRemote(id)@ == CommandView::<X>::RemoveRemote(id),
        Command::<X>::PushLogLine(dir, a)@ == CommandView::<X>::PushLogLine(dir, a@),
        Command::<X>::EnsureRemote(id, flag)@ == CommandView::<X>::EnsureRemote(id, flag),
        Command::<X>::SetRemoteEnabled(id, flag)@ == CommandView::<X>::SetRemoteEnabled(id, flag),
        Command::<X>::UnregisterClient(a)@ == CommandView::<X>::UnregisterClient(a@),
        Command::<X>::SetPolicy(id, policy)@ == CommandView::<X>::SetPolicy(id, policy),
        Command::<X>::LogIn(login, target)@ == CommandView::<X>::LogIn(login@, target),
        Command::<X>::DeleteRemote(a)@ == CommandView::<X>::DeleteRemote(a@),
        Command::<X>::DeleteSyncDir(a, b)@ == CommandView::<X>::DeleteSyncDir(a@, b@),
        Command::<X>::Elsewhere(message)@ == CommandView::<X>::Elsewhere(message),
{
}

/// Of the state everything is told.
pub proof fn law_state_is_told_whole(app: CelesteApp)
    ensures
        app@.remotes == app.remotes@,
        app@.sync_dirs == app.sync_dirs@,
        app@.selected == app.selected,
        app@.syncing == app.syncing@,
        app@.all_known_sync_dirs == app.all_known_sync_dirs@,
        app@.exclusion_panel == app.exclusion_panel,
        app@.sync_dir_exclusions == app.sync_dir_exclusions@,
        app@.draft_exclusion == app.draft_exclusion@,
        app@.last_sync_at == app.last_sync_at@,
        app@.refresh_requested_after == app.refresh_requested_after@,
        app@.sync_dir_drafts == app.sync_dir_drafts@,
        app.add_remote_draft is None <==> app@.add_remote_draft is None,
        app.add_remote_draft matches Some(draft) ==> app@.add_remote_draft == Some(draft@),
        app@.system_theme == app.system_theme,
        app.pending_delete is None <==> app@.pending_delete is None,
        app.pending_delete matches Some(pending) ==> app@.pending_delete == Some(pending@),
{
}

} // verus!
