//! What is done about the remotes: they are loaded, chosen, added, refreshed,
//! logged in again and deleted.

use crate::app::{form_provider, map_domain_provider_to_add_remote};
use crate::app::{AppView, CelesteApp, Command, CommandView, Message};
use crate::domain::ports::BackendClient;
use crate::domain::remote::{ProviderKind, Remote, RemoteId, SyncPolicy};
use crate::domain::sync::SyncDir;
use crate::screens::add_remote;
use crate::screens::add_remote::{DraftView, Login, LoginView};
use crate::screens::main_page;
use crate::screens::remote_page::{Msg, PendingDelete, PendingDeleteView};
use crate::text::same;
use vstd::prelude::*;
use vstd::string::*;

verus! {

/// Where the first remote stands that satisfies `p`.
pub open spec fn first(remotes: Seq<Remote>, p: spec_fn(Remote) -> bool) -> Option<int>
    decreases remotes.len(),
{
    if remotes.len() == 0 {
        None
    } else {
        match first(remotes.drop_last(), p) {
            Some(i) => Some(i),
            None => if p(remotes.last()) {
                Some(remotes.len() - 1)
            } else {
                None
            },
        }
    }
}

/// The predicate "has the key `id`".
pub open spec fn has_id(id: RemoteId) -> spec_fn(Remote) -> bool {
    |r: Remote| r.id == id
}

/// The predicate "has the name `name`".
pub open spec fn has_name(name: Seq<char>) -> spec_fn(Remote) -> bool {
    |r: Remote| r.name@ == name
}

/// What is found is there, satisfies `p`, and nothing before it does; nothing
/// is found only where nothing satisfies `p`.
proof fn lemma_first(remotes: Seq<Remote>, p: spec_fn(Remote) -> bool)
    ensures
        match first(remotes, p) {
            Some(i) => 0 <= i < remotes.len() && p(remotes[i]) && forall|k: int|
                0 <= k < i ==> !p(#[trigger] remotes[k]),
            None => forall|k: int| 0 <= k < remotes.len() ==> !p(#[trigger] remotes[k]),
        },
    decreases remotes.len(),
{
    if remotes.len() > 0 {
        let front = remotes.drop_last();
        lemma_first(front, p);
        assert(forall|k: int| 0 <= k < front.len() ==> front[k] == #[trigger] remotes[k]);
    }
}

/// What is found in front is found in the whole.
proof fn lemma_first_in_front(remotes: Seq<Remote>, n: int, p: spec_fn(Remote) -> bool)
    requires
        0 <= n <= remotes.len(),
        first(remotes.take(n), p) is Some,
    ensures
        first(remotes, p) == first(remotes.take(n), p),
    decreases remotes.len() - n,
{
    if n == remotes.len() {
        assert(remotes.take(n) =~= remotes);
    } else {
        assert(remotes.take(n + 1).drop_last() =~= remotes.take(n));
        lemma_first_in_front(remotes, n + 1, p);
    }
}

/// Where the first remote of the key `id` stands.
pub(crate) fn position_of_id(remotes: &Vec<Remote>, id: RemoteId) -> (r: Option<usize>)
    ensures
        match r {
            Some(i) => first(remotes@, has_id(id)) == Some(i as int) && i < remotes@.len(),
            None => first(remotes@, has_id(id)) is None,
        },
{
    let mut i: usize = 0;
    while i < remotes.len()
        invariant
            i <= remotes@.len(),
            first(remotes@.take(i as int), has_id(id)) is None,
        decreases remotes@.len() - i,
    {
        assert(remotes@.take(i + 1).drop_last() =~= remotes@.take(i as int));
        if remotes[i].id == id {
            proof {
                lemma_first_in_front(remotes@, i + 1, has_id(id));
            }
            return Some(i);
        }
        i += 1;
    }
    assert(remotes@.take(i as int) =~= remotes@);
    None
}

/// Where the first remote of the name `name` stands.
fn position_of_name(remotes: &Vec<Remote>, name: &str) -> (r: Option<usize>)
    ensures
        match r {
            Some(i) => first(remotes@, has_name(name@)) == Some(i as int) && i < remotes@.len(),
            None => first(remotes@, has_name(name@)) is None,
        },
{
    let mut i: usize = 0;
    while i < remotes.len()
        invariant
            i <= remotes@.len(),
            first(remotes@.take(i as int), has_name(name@)) is None,
        decreases remotes@.len() - i,
    {
        assert(remotes@.take(i + 1).drop_last() =~= remotes@.take(i as int));
        if same(remotes[i].name.as_str(), name) {
            proof {
                lemma_first_in_front(remotes@, i + 1, has_name(name@));
            }
            return Some(i);
        }
        i += 1;
    }
    assert(remotes@.take(i as int) =~= remotes@);
    None
}

/// The predicate "is enabled and idle".
pub open spec fn ready(syncing: Set<i64>) -> spec_fn(Remote) -> bool {
    |r: Remote| r.policy.enabled && !syncing.contains(r.id.0)
}

/// What a login again comes to: the key of the remote it was for, or what went
/// wrong.
pub fn reauth_result(done: Result<(), String>, existing: Option<RemoteId>) -> (r: Result<
    RemoteId,
    String,
>)
    ensures
        match r {
            Ok(id) => done is Ok && existing == Some(id),
            Err(e) => match done {
                Ok(_) => existing is None && e@ == "Remote not found after reauth."@,
                Err(why) => e@ == why@,
            },
        },
{
    match (done, existing) {
        (Ok(()), Some(id)) => Ok(id),
        (Ok(()), None) => Err("Remote not found after reauth.".to_owned()),
        (Err(e), _) => Err(e),
    }
}

/// A login again, for a remote that is there.
pub open spec fn renews(login: LoginView) -> bool {
    login is ReauthProton || login is ReauthOAuth
}

impl AppView {
    /// The key of the remote of this name.
    pub open spec fn id_of(self, name: Seq<char>) -> Option<RemoteId> {
        match first(self.remotes, has_name(name)) {
            Some(i) => Some(self.remotes[i].id),
            None => None,
        }
    }

    /// The state and what is asked for when the remote `id` is chosen.
    pub open spec fn choosing<X>(self, id: RemoteId) -> (AppView, Seq<CommandView<X>>) {
        (
            AppView { selected: Some(id), ..self },
            seq![CommandView::LoadSyncDirs(id), CommandView::LoadAllSyncDirs],
        )
    }

    /// What is asked for when everything is refreshed: a pass for every remote
    /// that is enabled and idle.
    pub open spec fn refreshing_all<X>(self) -> Seq<CommandView<X>> {
        self.remotes.filter(ready(self.syncing)).map_values(
            |r: Remote| CommandView::<X>::StartSync(r.id),
        )
    }

    /// The state and what is asked for when the form reports `msg`.
    pub open spec fn filling<X>(self, msg: add_remote::Msg) -> (AppView, Seq<CommandView<X>>) {
        match self.add_remote_draft {
            None => (self, seq![]),
            Some(draft) => match msg {
                add_remote::Msg::Cancel => (AppView { add_remote_draft: None, ..self }, seq![]),
                add_remote::Msg::Submit => (
                    AppView { add_remote_draft: Some(draft.sent()), ..self },
                    match draft.request() {
                        Some(login) => seq![
                            CommandView::LogIn(
                                login,
                                if renews(login) {
                                    self.id_of(draft.name)
                                } else {
                                    None
                                },
                            ),
                        ],
                        None => seq![],
                    },
                ),
                _ => (AppView { add_remote_draft: Some(draft.edited(msg)), ..self }, seq![]),
            },
        }
    }

    /// The policy that is to be written after the login of the remote `id`: it
    /// is enabled again, where it was not.
    pub open spec fn reenabled(self, id: RemoteId) -> Option<SyncPolicy> {
        match first(self.remotes, has_id(id)) {
            Some(i) => if self.remotes[i].policy.enabled {
                None
            } else {
                Some(SyncPolicy { enabled: true, ..self.remotes[i].policy })
            },
            None => None,
        }
    }

    /// The state after the login of the remote `id`.
    pub open spec fn logged_in(self, id: RemoteId) -> AppView {
        AppView {
            add_remote_draft: None,
            remotes: match self.reenabled(id) {
                Some(policy) => {
                    let i = first(self.remotes, has_id(id))->0;
                    self.remotes.update(i, Remote { policy, ..self.remotes[i] })
                },
                None => self.remotes,
            },
            ..self
        }
    }

    /// What is asked for after the login of the remote `id`.
    pub open spec fn after_login<X>(self, id: RemoteId) -> Seq<CommandView<X>> {
        seq![CommandView::ReauthComplete(id), CommandView::SetRemoteEnabled(id, true)] + (
        match self.reenabled(id) {
            Some(policy) => seq![CommandView::SetPolicy(id, policy)],
            None => seq![],
        }) + seq![CommandView::LoadRemotes]
    }

    /// The state after a login that failed.
    pub open spec fn login_failed(self, e: Seq<char>) -> AppView {
        AppView {
            add_remote_draft: match self.add_remote_draft {
                Some(draft) => Some(DraftView { error: Some(e), busy: false, ..draft }),
                None => None,
            },
            ..self
        }
    }

    /// The directories of the remote `id`.
    pub open spec fn dirs_of(self, id: RemoteId) -> Seq<SyncDir> {
        if self.sync_dirs.contains_key(id.0) {
            self.sync_dirs[id.0]@
        } else {
            Seq::empty()
        }
    }

    /// The state and what is asked for when the remote `id` is refreshed: a
    /// pass, or, while one is running, another one after it, and a line in the
    /// log of every directory that says so.
    pub open spec fn refreshing<X>(self, id: RemoteId) -> (AppView, Seq<CommandView<X>>) {
        if self.syncing.contains(id.0) {
            (
                AppView {
                    refresh_requested_after: self.refresh_requested_after.insert(id.0),
                    ..self
                },
                self.dirs_of(id).map_values(
                    |sd: SyncDir|
                        CommandView::<X>::PushLogLine(
                            sd.id,
                            "⟳ Refresh queued — starts after the current pass finishes."@,
                        ),
                ),
            )
        } else {
            (self, seq![CommandView::StartSync(id)])
        }
    }

    /// The state after the remote `id` was deleted.
    pub open spec fn without(self, id: RemoteId) -> AppView {
        AppView {
            selected: None,
            syncing: self.syncing.remove(id.0),
            sync_dirs: self.sync_dirs.remove(id.0),
            last_sync_at: self.last_sync_at.remove(id.0),
            sync_dir_drafts: self.sync_dir_drafts.remove(id.0),
            remotes: self.remotes.filter(|r: Remote| r.id != id),
            ..self
        }
    }

    /// What is asked for when the remote `id` of this name is deleted.
    pub open spec fn deleting<X>(self, id: RemoteId, name: Seq<char>) -> Seq<CommandView<X>> {
        seq![
            CommandView::RemoveRemote(id),
            CommandView::UnregisterClient(name),
            CommandView::DeleteRemote(name),
        ]
    }

    /// The state and what is asked for when the dialog is answered with yes.
    pub open spec fn confirming<X>(self) -> (AppView, Seq<CommandView<X>>) {
        let closed = AppView { pending_delete: None, ..self };
        match self.pending_delete {
            Some(PendingDeleteView::Remote(id, name)) => (
                closed.without(id),
                closed.deleting(id, name),
            ),
            Some(PendingDeleteView::SyncDir { local, remote }) => (
                closed,
                seq![CommandView::DeleteSyncDir(local, remote)],
            ),
            None => (closed, seq![]),
        }
    }

    /// The form that logs in again for the remote `id`, with its name and its
    /// service filled in.
    pub open spec fn reauth_form(self, id: RemoteId, name: Seq<char>) -> DraftView {
        DraftView {
            name,
            provider: match first(self.remotes, has_id(id)) {
                Some(i) => match self.remotes[i].provider_kind {
                    Some(p) => Some(form_provider(p)),
                    None => None,
                },
                None => None,
            },
            reauth: true,
            ..add_remote::empty_form()
        }
    }
}

/// Puts `command` behind the others.
pub(crate) fn ask<X>(commands: &mut Vec<Command<X>>, command: Command<X>)
    ensures
        final(commands).deep_view() == old(commands).deep_view().push(command@),
{
    let ghost before = commands.deep_view();
    commands.push(command);
    assert(commands.deep_view() =~= before.push(command@));
}

/// What `after` may be, where the client was asked for the kind of `before`: a
/// kind that it knows replaces the one that was known, and an answer that it
/// does not give leaves it.
pub open spec fn typed<
    C: BackendClient + ?Sized,
    K: Fn(&String) -> Option<ProviderKind>,
>(rclone: &C, kind_of: K, before: Remote, after: Remote) -> bool {
    exists|name: &str, answer: Result<Option<String>, String>|
        {
            &&& name@ == before.name@
            &&& #[trigger] call_ensures(C::remote_type, (rclone, name), answer)
            &&& after == (Remote { provider_kind: after.provider_kind, ..before })
            &&& match answer {
                Ok(Some(t)) => call_ensures(kind_of, (&t,), after.provider_kind),
                _ => after.provider_kind == before.provider_kind,
            }
        }
}

impl CelesteApp {
    /// Takes over the remotes that were loaded, with the kind of each that the
    /// client knows.
    pub fn handle_remotes_loaded<
        C: BackendClient + ?Sized,
        K: Fn(&String) -> Option<ProviderKind>,
        X,
    >(&mut self, remotes: Vec<Remote>, rclone: &C, kind_of: &K) -> (r: Vec<Command<X>>)
        requires
            forall|t: &String| #[trigger] call_requires(*kind_of, (t,)),
        ensures
            final(self)@ == (AppView { remotes: final(self).remotes@, ..old(self)@ }),
            final(self).remotes@.len() == remotes@.len(),
            forall|i: int|
                0 <= i < remotes@.len() ==> typed(
                    rclone,
                    *kind_of,
                    remotes@[i],
                    #[trigger] final(self).remotes@[i],
                ),
            r.deep_view() == final(self).remotes@.map_values(
                |r: Remote| CommandView::<X>::EnsureRemote(r.id, r.policy.enabled),
            ),
    {
        let ghost loaded = remotes@;
        let mut remotes = remotes;
        let mut i: usize = 0;
        while i < remotes.len()
            invariant
                i <= remotes@.len() == loaded.len(),
                forall|t: &String| #[trigger] call_requires(*kind_of, (t,)),
                forall|k: int|
                    0 <= k < i ==> typed(rclone, *kind_of, loaded[k], #[trigger] remotes@[k]),
                forall|k: int| i <= k < loaded.len() ==> loaded[k] == #[trigger] remotes@[k],
            decreases remotes@.len() - i,
        {
            let ghost before = remotes@;
            let answer = rclone.remote_type(remotes[i].name.as_str());
            match answer {
                Ok(Some(t)) => {
                    let kind = kind_of(&t);
                    remotes[i].provider_kind = kind;
                },
                _ => {},
            }
            assert(typed(rclone, *kind_of, before[i as int], remotes@[i as int]));
            i += 1;
        }
        self.remotes = remotes;
        let mut commands: Vec<Command<X>> = Vec::new();
        let mut j: usize = 0;
        while j < self.remotes.len()
            invariant
                j <= self.remotes@.len(),
                commands.deep_view().len() == j,
                forall|k: int|
                    0 <= k < j ==> #[trigger] commands.deep_view()[k] == (
                    CommandView::<X>::EnsureRemote(
                        self.remotes@[k].id,
                        self.remotes@[k].policy.enabled,
                    )),
            decreases self.remotes@.len() - j,
        {
            let id = self.remotes[j].id;
            let enabled = self.remotes[j].policy.enabled;
            ask(&mut commands, Command::EnsureRemote(id, enabled));
            j += 1;
        }
        assert(commands.deep_view() =~= self.remotes@.map_values(
            |r: Remote| CommandView::<X>::EnsureRemote(r.id, r.policy.enabled),
        ));
        commands
    }

    /// Chooses a remote.
    pub fn handle_remote_selected<X>(&mut self, id: RemoteId) -> (r: Vec<Command<X>>)
        ensures
            (final(self)@, r.deep_view()) == old(self)@.choosing::<X>(id),
    {
        self.selected = Some(id);
        let mut commands: Vec<Command<X>> = Vec::new();
        ask(&mut commands, Command::LoadSyncDirs(id));
        ask(&mut commands, Command::LoadAllSyncDirs);
        assert(commands.deep_view() =~= old(self)@.choosing::<X>(id).1);
        commands
    }

    /// Starts a pass for every remote that is enabled and idle.
    pub fn handle_refresh_all<X>(&mut self) -> (r: Vec<Command<X>>)
        ensures
            final(self)@ == old(self)@,
            r.deep_view() == old(self)@.refreshing_all::<X>(),
    {
        broadcast use vstd::std_specs::hash::group_hash_axioms;

        let ghost p = ready(self.syncing@);
        let ghost start = |r: Remote| CommandView::<X>::StartSync(r.id);
        let mut commands: Vec<Command<X>> = Vec::new();
        let mut i: usize = 0;
        assert(commands.deep_view() =~= self.remotes@.take(0).filter(p).map_values(start)) by {
            reveal(Seq::filter);
        }
        while i < self.remotes.len()
            invariant
                i <= self.remotes@.len(),
                p == ready(self.syncing@),
                start == (|r: Remote| CommandView::<X>::StartSync(r.id)),
                self@ == old(self)@,
                commands.deep_view() == self.remotes@.take(i as int).filter(p).map_values(start),
            decreases self.remotes@.len() - i,
        {
            let ghost kept = self.remotes@.take(i as int).filter(p);
            let ghost seen = commands.deep_view();
            assert(self.remotes@.take(i + 1).drop_last() =~= self.remotes@.take(i as int));
            proof {
                reveal(Seq::filter);
            }
            let id = self.remotes[i].id;
            if self.remotes[i].policy.enabled && !self.syncing.contains(&id.0) {
                ask(&mut commands, Command::StartSync(id));
                assert(commands.deep_view() =~= kept.push(self.remotes@[i as int]).map_values(
                    start,
                ));
            }
            i += 1;
        }
        assert(self.remotes@.take(i as int) =~= self.remotes@);
        commands
    }

    /// Opens an empty form.
    pub fn handle_open_add_remote<X>(&mut self) -> (r: Vec<Command<X>>)
        ensures
            final(self)@ == (AppView {
                add_remote_draft: Some(add_remote::empty_form()),
                ..old(self)@
            }),
            r@.len() == 0,
    {
        self.add_remote_draft = Some(add_remote::Draft::default());
        Vec::new()
    }

    /// The remote that a login again is for.
    fn renewed_remote(&self, login: &Login) -> (r: Option<RemoteId>)
        ensures
            r == (match login@ {
                LoginView::ReauthProton { name, .. } => self@.id_of(name),
                LoginView::ReauthOAuth { name, .. } => self@.id_of(name),
                _ => None,
            }),
    {
        let name = match login {
            Login::ReauthProton { name, .. } => name,
            Login::ReauthOAuth { name, .. } => name,
            _ => {
                return None;
            },
        };
        match position_of_name(&self.remotes, name.as_str()) {
            Some(i) => Some(self.remotes[i].id),
            None => None,
        }
    }

    /// Does what the form reports: changes a field, closes the form, or sends
    /// it.
    pub fn handle_add_remote_msg<X>(&mut self, sub: add_remote::Msg) -> (r: Vec<Command<X>>)
        ensures
            (final(self)@, r.deep_view()) == old(self)@.filling::<X>(sub),
    {
        let ghost wanted = self@.filling::<X>(sub);
        let mut commands: Vec<Command<X>> = Vec::new();
        assert(commands.deep_view() =~= seq![]);
        match sub {
            add_remote::Msg::Cancel => {
                self.add_remote_draft = None;
            },
            add_remote::Msg::Submit => {
                let login = match &mut self.add_remote_draft {
                    Some(draft) => draft.submit(),
                    None => None,
                };
                match login {
                    Some(login) => {
                        let existing = self.renewed_remote(&login);
                        ask(&mut commands, Command::LogIn(login, existing));
                    },
                    None => {},
                }
            },
            _ => {
                match &mut self.add_remote_draft {
                    Some(draft) => {
                        draft.edit(sub);
                    },
                    None => {},
                }
            },
        }
        assert(commands.deep_view() =~= wanted.1);
        commands
    }

    /// Closes the form after a login, enables the remote again, and loads the
    /// remotes.
    pub fn handle_add_remote_result_ok<X>(&mut self, id: RemoteId) -> (r: Vec<Command<X>>)
        ensures
            final(self)@ == old(self)@.logged_in(id),
            r.deep_view() == old(self)@.after_login::<X>(id),
    {
        let ghost wanted = self@.after_login::<X>(id);
        let ghost after = self@.logged_in(id);
        self.add_remote_draft = None;
        let mut commands: Vec<Command<X>> = Vec::new();
        ask(&mut commands, Command::ReauthComplete(id));
        ask(&mut commands, Command::SetRemoteEnabled(id, true));
        match position_of_id(&self.remotes, id) {
            Some(i) => {
                if !self.remotes[i].policy.enabled {
                    let policy = SyncPolicy {
                        interval: self.remotes[i].policy.interval,
                        enabled: true,
                    };
                    self.remotes[i].policy = policy;
                    ask(&mut commands, Command::SetPolicy(id, policy));
                }
            },
            None => {},
        }
        ask(&mut commands, Command::LoadRemotes);
        assert(commands.deep_view() =~= wanted);
        assert(self.remotes@ =~= after.remotes);
        commands
    }

    /// Says in the form why a login failed.
    pub fn handle_add_remote_result_err<X>(&mut self, msg: String) -> (r: Vec<Command<X>>)
        ensures
            final(self)@ == old(self)@.login_failed(msg@),
            r@.len() == 0,
    {
        match &mut self.add_remote_draft {
            Some(draft) => {
                draft.error = Some(msg);
                draft.busy = false;
            },
            None => {},
        }
        Vec::new()
    }

    /// Goes back to the list of remotes.
    pub fn handle_remote_back<X>(&mut self) -> (r: Vec<Command<X>>)
        ensures
            final(self)@ == (AppView { selected: None, ..old(self)@ }),
            r@.len() == 0,
    {
        self.selected = None;
        Vec::new()
    }

    /// Starts a pass, or has one follow the pass that is running.
    pub fn handle_refresh_now<X>(&mut self, id: RemoteId) -> (r: Vec<Command<X>>)
        ensures
            (final(self)@, r.deep_view()) == old(self)@.refreshing::<X>(id),
    {
        broadcast use vstd::std_specs::hash::group_hash_axioms;

        let ghost wanted = self@.refreshing::<X>(id);
        let ghost dirs = self@.dirs_of(id);
        let mut commands: Vec<Command<X>> = Vec::new();
        if self.syncing.contains(&id.0) {
            self.refresh_requested_after.insert(id.0);
            match self.sync_dirs.get(&id.0) {
                Some(of_remote) => {
                    let mut i: usize = 0;
                    while i < of_remote.len()
                        invariant
                            i <= of_remote@.len(),
                            of_remote@ == dirs,
                            commands.deep_view().len() == i,
                            forall|k: int|
                                0 <= k < i ==> #[trigger] commands.deep_view()[k] == (
                                CommandView::<X>::PushLogLine(
                                    dirs[k].id,
                                    "⟳ Refresh queued — starts after the current pass finishes."@,
                                )),
                        decreases of_remote@.len() - i,
                    {
                        let line =
                            "⟳ Refresh queued — starts after the current pass finishes.".to_owned();
                        ask(&mut commands, Command::PushLogLine(of_remote[i].id, line));
                        i += 1;
                    }
                },
                None => {},
            }
        } else {
            ask(&mut commands, Command::StartSync(id));
        }
        assert(commands.deep_view() =~= wanted.1);
        assert(self@ =~= wanted.0);
        commands
    }

    /// Asks before a remote is deleted.
    pub fn handle_request_delete_remote<X>(&mut self, id: RemoteId, name: String) -> (r: Vec<
        Command<X>,
    >)
        ensures
            final(self)@ == (AppView {
                pending_delete: Some(PendingDeleteView::Remote(id, name@)),
                ..old(self)@
            }),
            r@.len() == 0,
    {
        self.pending_delete = Some(PendingDelete::Remote(id, name));
        Vec::new()
    }

    /// Asks before the link between two paths is deleted.
    pub fn handle_request_delete_sync_dir<X>(&mut self, local: String, remote: String) -> (r: Vec<
        Command<X>,
    >)
        ensures
            final(self)@ == (AppView {
                pending_delete: Some(
                    PendingDeleteView::SyncDir { local: local@, remote: remote@ },
                ),
                ..old(self)@
            }),
            r@.len() == 0,
    {
        self.pending_delete = Some(PendingDelete::SyncDir { local, remote });
        Vec::new()
    }

    /// Deletes what the dialog asked about.
    pub fn handle_confirm_delete<X>(&mut self) -> (r: Vec<Command<X>>)
        ensures
            (final(self)@, r.deep_view()) == old(self)@.confirming::<X>(),
    {
        let ghost wanted = self@.confirming::<X>();
        let pending = self.pending_delete.take();
        let commands = match pending {
            Some(PendingDelete::Remote(id, name)) => self.handle_delete_remote(id, name),
            Some(PendingDelete::SyncDir { local, remote }) => {
                let mut commands: Vec<Command<X>> = Vec::new();
                ask(&mut commands, Command::DeleteSyncDir(local, remote));
                commands
            },
            None => Vec::new(),
        };
        assert(commands.deep_view() =~= wanted.1);
        commands
    }

    /// Closes the dialog and deletes nothing.
    pub fn handle_cancel_delete<X>(&mut self) -> (r: Vec<Command<X>>)
        ensures
            final(self)@ == (AppView { pending_delete: None, ..old(self)@ }),
            r@.len() == 0,
    {
        self.pending_delete = None;
        Vec::new()
    }

    /// Forgets a remote and has it deleted.
    pub fn handle_delete_remote<X>(&mut self, id: RemoteId, name: String) -> (r: Vec<Command<X>>)
        ensures
            final(self)@ == old(self)@.without(id),
            r.deep_view() == old(self)@.deleting::<X>(id, name@),
    {
        broadcast use vstd::std_specs::hash::group_hash_axioms;

        let ghost wanted = self@.deleting::<X>(id, name@);
        let ghost after = self@.without(id);
        let ghost all = self.remotes@;
        let ghost other = |r: Remote| r.id != id;
        self.selected = None;
        self.syncing.remove(&id.0);
        self.sync_dirs.remove(&id.0);
        self.last_sync_at.remove(&id.0);
        self.sync_dir_drafts.remove(&id.0);
        let mut kept: Vec<Remote> = Vec::new();
        let mut rest: Vec<Remote> = Vec::new();
        rest.append(&mut self.remotes);
        proof {
            reveal(Seq::filter);
            assert(rest@ =~= all);
            assert(all.skip(0) =~= all);
            assert(all.take(0).filter(other) =~= Seq::<Remote>::empty());
        }
        let ghost mut n: int = 0;
        while rest.len() > 0
            invariant
                0 <= n <= all.len(),
                rest@ == all.skip(n),
                other == (|r: Remote| r.id != id),
                kept@ == all.take(n).filter(other),
            decreases rest@.len(),
        {
            let r = rest.remove(0);
            proof {
                reveal(Seq::filter);
                assert(r == all[n]);
                assert(all.take(n + 1).drop_last() =~= all.take(n));
                assert(rest@ =~= all.skip(n + 1));
                n = n + 1;
            }
            if r.id != id {
                kept.push(r);
            }
        }
        assert(all.take(n) =~= all);
        self.remotes = kept;
        let mut commands: Vec<Command<X>> = Vec::new();
        ask(&mut commands, Command::RemoveRemote(id));
        ask(&mut commands, Command::UnregisterClient(name.clone()));
        ask(&mut commands, Command::DeleteRemote(name));
        assert(commands.deep_view() =~= wanted);
        assert(self@ =~= after);
        commands
    }

    /// Opens the form that logs in again for a remote.
    pub fn handle_reauthenticate<X>(&mut self, id: RemoteId, name: String) -> (r: Vec<Command<X>>)
        ensures
            final(self)@ == (AppView {
                add_remote_draft: Some(old(self)@.reauth_form(id, name@)),
                ..old(self)@
            }),
            r@.len() == 0,
    {
        let provider = match position_of_id(&self.remotes, id) {
            Some(i) => match self.remotes[i].provider_kind {
                Some(p) => map_domain_provider_to_add_remote(p),
                None => None,
            },
            None => None,
        };
        let mut draft = add_remote::Draft::default();
        draft.name = name;
        draft.provider = provider;
        draft.reauth = true;
        self.add_remote_draft = Some(draft);
        Vec::new()
    }
}

/// Answering the dialog with yes deletes what it asked about, and that alone:
/// the remote, or the link.
pub proof fn law_confirm_deletes_what_was_asked<X>(state: AppView, id: RemoteId, name: String)
    ensures
        ({
            let asked = state.dispatched::<X>(
                Message::Remote(Msg::RequestDeleteRemote(id, name)),
            );
            let answered = asked.0.dispatched::<X>(Message::Remote(Msg::ConfirmDelete));
            let at_once = AppView { pending_delete: None, ..state }.dispatched::<X>(
                Message::Remote(Msg::DeleteRemote(id, name)),
            );
            asked.1.len() == 0 && answered == at_once
        }),
{
}

/// Answering the dialog on a link with yes deletes that link.
pub proof fn law_confirm_deletes_link<X>(state: AppView, local: String, remote: String)
    ensures
        ({
            let asked = state.dispatched::<X>(
                Message::Remote(Msg::RequestDeleteSyncDir(local, remote)),
            );
            let answered = asked.0.dispatched::<X>(Message::Remote(Msg::ConfirmDelete));
            &&& asked.1.len() == 0
            &&& answered.1 == seq![CommandView::<X>::DeleteSyncDir(local@, remote@)]
            &&& answered.0 == (AppView { pending_delete: None, ..state })
        }),
{
}

/// Answering the dialog with no deletes nothing, whatever it asked about; after
/// that a yes deletes nothing either.
pub proof fn law_cancel_deletes_nothing<X>(state: AppView)
    ensures
        ({
            let answered = state.dispatched::<X>(Message::Remote(Msg::CancelDelete));
            let again = answered.0.dispatched::<X>(Message::Remote(Msg::ConfirmDelete));
            &&& answered.1.len() == 0
            &&& answered.0 == (AppView { pending_delete: None, ..state })
            &&& again.1.len() == 0
            &&& again.0 == answered.0
        }),
{
}

/// A remote that was deleted is gone from every list and no page shows it, and
/// the others stay.
pub proof fn law_deleted_is_forgotten(state: AppView, id: RemoteId)
    ensures
        ({
            let after = state.without(id);
            &&& after.selected is None
            &&& after.shown() is None
            &&& !after.syncing.contains(id.0)
            &&& !after.sync_dirs.contains_key(id.0)
            &&& !after.last_sync_at.contains_key(id.0)
            &&& !after.sync_dir_drafts.contains_key(id.0)
            &&& first(after.remotes, has_id(id)) is None
            &&& forall|r: Remote|
                r.id != id ==> (after.remotes.contains(r) <==> #[trigger] state.remotes.contains(r))
        }),
{
    let other = |r: Remote| r.id != id;
    let kept = state.remotes.filter(other);
    state.remotes.filter_lemma(other);
    lemma_first(kept, has_id(id));
    assert forall|r: Remote| r.id != id implies (kept.contains(r)
        <==> #[trigger] state.remotes.contains(r)) by {
        if state.remotes.contains(r) {
            let i = choose|i: int| 0 <= i < state.remotes.len() && state.remotes[i] == r;
            assert(other(state.remotes[i]));
        }
        if kept.contains(r) {
            let i = choose|i: int| 0 <= i < kept.len() && kept[i] == r;
            lemma_filter_keeps(state.remotes, other, i);
        }
    }
}

/// What a filter lets through was there before.
proof fn lemma_filter_keeps(remotes: Seq<Remote>, p: spec_fn(Remote) -> bool, i: int)
    requires
        0 <= i < remotes.filter(p).len(),
    ensures
        remotes.contains(remotes.filter(p)[i]),
    decreases remotes.len(),
{
    reveal(Seq::filter);
    if remotes.len() > 0 {
        let front = remotes.drop_last();
        if i < front.filter(p).len() {
            lemma_filter_keeps(front, p, i);
            let k = choose|k: int| 0 <= k < front.len() && front[k] == front.filter(p)[i];
            assert(remotes[k] == remotes.filter(p)[i]);
        } else {
            assert(remotes[remotes.len() - 1] == remotes.filter(p)[i]);
        }
    }
}

/// A pass is never started for a remote whose pass is running: refreshing it
/// has another pass follow instead.
pub proof fn law_one_pass_at_a_time<X>(state: AppView, id: RemoteId)
    ensures
        state.syncing.contains(id.0) ==> {
            &&& state.refreshing::<X>(id).0.refresh_requested_after.contains(id.0)
            &&& forall|i: int|
                0 <= i < state.refreshing::<X>(id).1.len() ==> !(#[trigger] state.refreshing::<X>(
                    id,
                ).1[i] is StartSync)
        },
        forall|i: int|
            0 <= i < state.refreshing_all::<X>().len() ==> (
            #[trigger] state.refreshing_all::<X>()[i] matches CommandView::StartSync(started)
                && !state.syncing.contains(started.0)),
{
    let chosen = state.remotes.filter(ready(state.syncing));
    state.remotes.filter_lemma(ready(state.syncing));
    assert forall|i: int| 0 <= i < state.refreshing_all::<X>().len() implies (
    #[trigger] state.refreshing_all::<X>()[i] matches CommandView::StartSync(started)
        && !state.syncing.contains(started.0)) by {
        assert(ready(state.syncing)(chosen[i]));
    }
}

/// After a login the first remote of the key is enabled, the others are as they
/// were, and its policy is written exactly when it was not enabled before.
pub proof fn law_login_enables(state: AppView, id: RemoteId)
    ensures
        state.logged_in(id).add_remote_draft is None,
        state.logged_in(id).remotes.len() == state.remotes.len(),
        match first(state.remotes, has_id(id)) {
            Some(i) => {
                &&& state.logged_in(id).remotes[i].policy.enabled
                &&& forall|k: int|
                    0 <= k < state.remotes.len() && k != i ==> state.logged_in(id).remotes[k]
                        == #[trigger] state.remotes[k]
                &&& (state.reenabled(id) is Some <==> !state.remotes[i].policy.enabled)
            },
            None => state.logged_in(id).remotes == state.remotes && state.reenabled(id) is None,
        },
{
    lemma_first(state.remotes, has_id(id));
}

/// Logging in again for a remote, with its name and service as they are, never
/// asks for a new one: the login is for the remote that was chosen, where the
/// name is its own.
pub proof fn law_reauth_targets_existing<X>(
    state: AppView,
    id: RemoteId,
    name: String,
    fields: DraftView,
)
    requires
        fields.name == name@,
        fields.provider == state.reauth_form(id, name@).provider,
        fields.reauth,
    ensures
        ({
            let opened = AppView { add_remote_draft: Some(fields), ..state };
            let sent = opened.dispatched::<X>(Message::AddRemote(add_remote::Msg::Submit));
            sent.1.len() > 0 ==> (sent.1[0] matches CommandView::LogIn(login, target) && !(
            login is AddProton) && !(login is AddOAuth) && (renews(login) ==> target == state.id_of(
                name@,
            )))
        }),
{
}

/// A form that is opened and closed again leaves everything as it was, but for
/// a form that was open before.
pub proof fn law_form_opens_and_closes<X>(state: AppView, id: RemoteId, name: String)
    ensures
        ({
            let closed = AppView { add_remote_draft: None, ..state };
            let opened = state.dispatched::<X>(Message::Main(main_page::Msg::AddRemote));
            let again = state.dispatched::<X>(Message::Remote(Msg::Reauthenticate(id, name)));
            let cancel = Message::AddRemote(add_remote::Msg::Cancel);
            &&& opened.0.dispatched::<X>(cancel) == (closed, Seq::<CommandView<X>>::empty())
            &&& again.0.dispatched::<X>(cancel) == (closed, Seq::<CommandView<X>>::empty())
        }),
{
}

/// Refreshing everything leaves no remote out: each that is enabled and idle
/// gets a pass.
pub proof fn law_refresh_all_is_complete<X>(state: AppView, i: int)
    requires
        0 <= i < state.remotes.len(),
        state.remotes[i].policy.enabled,
        !state.syncing.contains(state.remotes[i].id.0),
    ensures
        state.refreshing_all::<X>().contains(CommandView::StartSync(state.remotes[i].id)),
        state.dispatched::<X>(Message::Main(main_page::Msg::RefreshAll)).1.contains(
            CommandView::StartSync(state.remotes[i].id),
        ),
{
    let p = ready(state.syncing);
    let chosen = state.remotes.filter(p);
    state.remotes.filter_lemma(p);
    assert(p(state.remotes[i]));
    assert(chosen.contains(state.remotes[i]));
    let k = choose|k: int| 0 <= k < chosen.len() && chosen[k] == state.remotes[i];
    assert(state.refreshing_all::<X>()[k] == CommandView::<X>::StartSync(state.remotes[i].id));
}

/// Refreshing everything starts nothing but passes, each for a remote that is
/// enabled and idle.
pub proof fn law_refresh_all_starts_nothing_else<X>(state: AppView, i: int)
    requires
        0 <= i < state.refreshing_all::<X>().len(),
    ensures
        exists|k: int|
            0 <= k < state.remotes.len() && state.refreshing_all::<X>()[i] == CommandView::<
                X,
            >::StartSync((#[trigger] state.remotes[k]).id) && state.remotes[k].policy.enabled
                && !state.syncing.contains(state.remotes[k].id.0),
{
    let p = ready(state.syncing);
    let chosen = state.remotes.filter(p);
    state.remotes.filter_lemma(p);
    lemma_filter_keeps(state.remotes, p, i);
    let k = choose|k: int| 0 <= k < state.remotes.len() && state.remotes[k] == chosen[i];
    assert(p(chosen[i]));
    assert(state.remotes[k].id == chosen[i].id);
}

/// Refreshing everything goes through the remotes in their order and starts one
/// pass for each: another remote at the end adds one pass at the end, where it
/// is enabled and idle, and changes nothing otherwise.
pub proof fn law_refresh_all_goes_in_order<X>(state: AppView, remote: Remote)
    ensures
        (AppView { remotes: Seq::empty(), ..state }).refreshing_all::<X>().len() == 0,
        (AppView { remotes: state.remotes.push(remote), ..state }).refreshing_all::<X>() == (
        if remote.policy.enabled && !state.syncing.contains(remote.id.0) {
            state.refreshing_all::<X>().push(CommandView::StartSync(remote.id))
        } else {
            state.refreshing_all::<X>()
        }),
{
    reveal(Seq::filter);
    assert(state.remotes.push(remote).drop_last() =~= state.remotes);
    let more = AppView { remotes: state.remotes.push(remote), ..state };
    if remote.policy.enabled && !state.syncing.contains(remote.id.0) {
        assert(more.refreshing_all::<X>() =~= state.refreshing_all::<X>().push(
            CommandView::StartSync(remote.id),
        ));
    }
}

/// A name stands for the first remote that has it.
pub proof fn law_name_stands_for_the_first(state: AppView, name: Seq<char>)
    ensures
        match state.id_of(name) {
            Some(id) => exists|i: int|
                #![trigger state.remotes[i]]
                {
                    &&& 0 <= i < state.remotes.len()
                    &&& state.remotes[i].name@ == name
                    &&& state.remotes[i].id == id
                    &&& forall|k: int| 0 <= k < i ==> (#[trigger] state.remotes[k]).name@ != name
                },
            None => forall|k: int|
                0 <= k < state.remotes.len() ==> (#[trigger] state.remotes[k]).name@ != name,
        },
{
    let p = has_name(name);
    lemma_first(state.remotes, p);
    match first(state.remotes, p) {
        Some(i) => {
            assert(p(state.remotes[i]));
            assert forall|k: int| 0 <= k < i implies (#[trigger] state.remotes[k]).name@
                != name by {
                assert(!p(state.remotes[k]));
            }
        },
        None => {
            assert forall|k: int| 0 <= k < state.remotes.len() implies (
            #[trigger] state.remotes[k]).name@ != name by {
                assert(!p(state.remotes[k]));
            }
        },
    }
}

/// A key stands for the first remote that has it.
pub proof fn law_key_stands_for_the_first(remotes: Seq<Remote>, id: RemoteId)
    ensures
        match first(remotes, has_id(id)) {
            Some(i) => {
                &&& 0 <= i < remotes.len()
                &&& remotes[i].id == id
                &&& forall|k: int| 0 <= k < i ==> (#[trigger] remotes[k]).id != id
            },
            None => forall|k: int| 0 <= k < remotes.len() ==> (#[trigger] remotes[k]).id != id,
        },
{
    let p = has_id(id);
    lemma_first(remotes, p);
    match first(remotes, p) {
        Some(i) => {
            assert(p(remotes[i]));
            assert forall|k: int| 0 <= k < i implies (#[trigger] remotes[k]).id != id by {
                assert(!p(remotes[k]));
            }
        },
        None => {
            assert forall|k: int| 0 <= k < remotes.len() implies (#[trigger] remotes[k]).id
                != id by {
                assert(!p(remotes[k]));
            }
        },
    }
}

/// Choosing a remote chooses that one, and has its directories and all others
/// loaded; going back chooses none. Nothing else changes.
pub proof fn law_chosen_remote_is_loaded<X>(state: AppView, id: RemoteId)
    ensures
        ({
            let chosen = state.dispatched::<X>(Message::Main(main_page::Msg::Selected(id)));
            let back = chosen.0.dispatched::<X>(Message::Remote(Msg::Back));
            &&& chosen.0 == (AppView { selected: Some(id), ..state })
            &&& chosen.1.len() == 2
            &&& chosen.1[0] == CommandView::<X>::LoadSyncDirs(id)
            &&& chosen.1[1] == CommandView::<X>::LoadAllSyncDirs
            &&& back.0 == (AppView { selected: None, ..state })
            &&& back.1.len() == 0
        }),
{
}

/// Refreshing a remote that is idle starts its pass, and that alone. While its
/// pass is running, another is to follow, and the log of each of its directories
/// says so, once.
pub proof fn law_refresh_starts_or_queues<X>(state: AppView, id: RemoteId)
    ensures
        ({
            let (after, asked) = state.dispatched::<X>(Message::Remote(Msg::RefreshNow(id)));
            let dirs = if state.sync_dirs.contains_key(id.0) {
                state.sync_dirs[id.0]@
            } else {
                Seq::empty()
            };
            &&& !state.syncing.contains(id.0) ==> after == state && asked == seq![
                CommandView::<X>::StartSync(id),
            ]
            &&& state.syncing.contains(id.0) ==> {
                &&& after == (AppView {
                    refresh_requested_after: after.refresh_requested_after,
                    ..state
                })
                &&& forall|k: i64|
                    #[trigger] after.refresh_requested_after.contains(k) <==> (k == id.0
                        || state.refresh_requested_after.contains(k))
                &&& asked.len() == dirs.len()
                &&& forall|i: int|
                    0 <= i < dirs.len() ==> #[trigger] asked[i] == CommandView::<X>::PushLogLine(
                        dirs[i].id,
                        "⟳ Refresh queued — starts after the current pass finishes."@,
                    )
            }
        }),
{
}

/// A form that is sent whole logs in with the login that it asks for. A login
/// again is for the remote of that name, any other is for none; nothing but the
/// form changes.
pub proof fn law_sent_form_logs_in<X>(state: AppView, draft: DraftView)
    requires
        state.add_remote_draft == Some(draft),
    ensures
        ({
            let (after, asked) = state.dispatched::<X>(
                Message::AddRemote(add_remote::Msg::Submit),
            );
            &&& after == (AppView { add_remote_draft: Some(draft.sent()), ..state })
            &&& draft.request() is None ==> asked.len() == 0
            &&& draft.request() matches Some(login) ==> asked == seq![
                CommandView::<X>::LogIn(
                    login,
                    match login {
                        LoginView::ReauthProton { name, .. } => state.id_of(name),
                        LoginView::ReauthOAuth { name, .. } => state.id_of(name),
                        _ => None,
                    },
                ),
            ]
        }),
{
}

/// What is entered stands in the form, and asks for nothing; without a form
/// nothing happens at all.
pub proof fn law_entered_stands_in_the_form<X>(
    state: AppView,
    draft: DraftView,
    msg: add_remote::Msg,
)
    requires
        !(msg is Submit) && !(msg is Cancel),
    ensures
        ({
            let open = AppView { add_remote_draft: Some(draft), ..state };
            let closed = AppView { add_remote_draft: None, ..state };
            &&& open.dispatched::<X>(Message::AddRemote(msg)) == (
                AppView { add_remote_draft: Some(draft.edited(msg)), ..state },
                Seq::<CommandView<X>>::empty(),
            )
            &&& closed.dispatched::<X>(Message::AddRemote(msg)) == (
                closed,
                Seq::<CommandView<X>>::empty(),
            )
            &&& closed.dispatched::<X>(Message::AddRemote(add_remote::Msg::Submit)) == (
                closed,
                Seq::<CommandView<X>>::empty(),
            )
            &&& closed.dispatched::<X>(Message::AddRemote(add_remote::Msg::Cancel)) == (
                closed,
                Seq::<CommandView<X>>::empty(),
            )
        }),
{
}

/// After a login the form is closed and the run states take the remote up and
/// know it as enabled; the policy that is written, where it was not enabled, has
/// the interval that it had; at last the remotes are loaded. Nothing else
/// changes.
pub proof fn law_login_takes_the_remote_up<X>(state: AppView, id: RemoteId)
    ensures
        ({
            let (after, asked) = state.dispatched::<X>(Message::AddRemoteResult(Ok(id)));
            let n = asked.len() as int;
            &&& after == (AppView { add_remote_draft: None, remotes: after.remotes, ..state })
            &&& 3 <= n <= 4
            &&& asked[0] == CommandView::<X>::ReauthComplete(id)
            &&& asked[1] == CommandView::<X>::SetRemoteEnabled(id, true)
            &&& asked[n - 1] == CommandView::<X>::LoadRemotes
            &&& n == 4 <==> exists|i: int|
                #![trigger state.remotes[i]]
                {
                    &&& 0 <= i < state.remotes.len()
                    &&& state.remotes[i].id == id
                    &&& !state.remotes[i].policy.enabled
                    &&& forall|k: int| 0 <= k < i ==> (#[trigger] state.remotes[k]).id != id
                }
            &&& n == 4 ==> exists|i: int|
                #![trigger state.remotes[i]]
                {
                    &&& 0 <= i < state.remotes.len()
                    &&& state.remotes[i].id == id
                    &&& forall|k: int| 0 <= k < i ==> (#[trigger] state.remotes[k]).id != id
                    &&& asked[2] == CommandView::<X>::SetPolicy(
                        id,
                        SyncPolicy { enabled: true, interval: state.remotes[i].policy.interval },
                    )
                    &&& after.remotes == state.remotes.update(
                        i,
                        Remote {
                            policy: SyncPolicy {
                                enabled: true,
                                interval: state.remotes[i].policy.interval,
                            },
                            ..state.remotes[i]
                        },
                    )
                }
            &&& n == 3 ==> after.remotes == state.remotes
        }),
{
    law_key_stands_for_the_first(state.remotes, id);
    match first(state.remotes, has_id(id)) {
        Some(i) => {
            assert(state.remotes[i].id == id);
            if state.remotes[i].policy.enabled {
                assert forall|j: int|
                    0 <= j < state.remotes.len() && (#[trigger] state.remotes[j]).id == id
                        && !state.remotes[j].policy.enabled implies exists|k: int|
                    0 <= k < j && (#[trigger] state.remotes[k]).id == id by {
                    assert(i < j);
                    assert(state.remotes[i].id == id);
                }
            }
        },
        None => {},
    }
}

/// After a login that failed the form says why and can be sent again; what was
/// entered stays, and nothing else changes.
pub proof fn law_failed_login_keeps_the_form<X>(state: AppView, e: String)
    ensures
        ({
            let (after, asked) = state.dispatched::<X>(Message::AddRemoteResult(Err(e)));
            &&& asked.len() == 0
            &&& after == (AppView { add_remote_draft: after.add_remote_draft, ..state })
            &&& match state.add_remote_draft {
                Some(draft) => after.add_remote_draft == Some(
                    DraftView { error: Some(e@), busy: false, ..draft },
                ),
                None => after.add_remote_draft is None,
            }
        }),
{
}

/// Deleting a remote has the run states forget it, the router forget its client,
/// and the remote deleted, in this order. What belongs to the other remotes
/// stays, they keep their order, and nothing else changes.
pub proof fn law_deletion_spares_the_others<X>(
    state: AppView,
    id: RemoteId,
    name: String,
    key: i64,
    remote: Remote,
)
    ensures
        ({
            let message = Message::Remote(Msg::DeleteRemote(id, name));
            let (after, asked) = state.dispatched::<X>(message);
            let more = AppView { remotes: state.remotes.push(remote), ..state };
            &&& asked.len() == 3
            &&& asked[0] == CommandView::<X>::RemoveRemote(id)
            &&& asked[1] == CommandView::<X>::UnregisterClient(name@)
            &&& asked[2] == CommandView::<X>::DeleteRemote(name@)
            &&& after == (AppView {
                selected: None,
                syncing: after.syncing,
                sync_dirs: after.sync_dirs,
                last_sync_at: after.last_sync_at,
                sync_dir_drafts: after.sync_dir_drafts,
                remotes: after.remotes,
                ..state
            })
            &&& key != id.0 ==> {
                &&& after.syncing.contains(key) == state.syncing.contains(key)
                &&& after.sync_dirs.contains_key(key) == state.sync_dirs.contains_key(key)
                &&& after.last_sync_at.contains_key(key) == state.last_sync_at.contains_key(key)
                &&& after.sync_dir_drafts.contains_key(key) == state.sync_dir_drafts.contains_key(
                    key,
                )
                &&& state.sync_dirs.contains_key(key) ==> after.sync_dirs[key]
                    == state.sync_dirs[key]
                &&& state.last_sync_at.contains_key(key) ==> after.last_sync_at[key]
                    == state.last_sync_at[key]
                &&& state.sync_dir_drafts.contains_key(key) ==> after.sync_dir_drafts[key]
                    == state.sync_dir_drafts[key]
            }
            &&& state.remotes.len() == 0 ==> after.remotes.len() == 0
            &&& more.dispatched::<X>(message).0.remotes == (if remote.id == id {
                after.remotes
            } else {
                after.remotes.push(remote)
            })
        }),
{
    reveal(Seq::filter);
    assert(state.remotes.push(remote).drop_last() =~= state.remotes);
}

/// A question whether to delete names what it is about, and deletes nothing
/// yet.
pub proof fn law_question_names_what_it_is_about<X>(
    state: AppView,
    id: RemoteId,
    name: String,
    local: String,
    remote: String,
)
    ensures
        state.dispatched::<X>(Message::Remote(Msg::RequestDeleteRemote(id, name))) == (
            AppView {
                pending_delete: Some(PendingDeleteView::Remote(id, name@)),
                ..state
            },
            Seq::<CommandView<X>>::empty(),
        ),
        state.dispatched::<X>(Message::Remote(Msg::RequestDeleteSyncDir(local, remote))) == (
            AppView {
                pending_delete: Some(
                    PendingDeleteView::SyncDir { local: local@, remote: remote@ },
                ),
                ..state
            },
            Seq::<CommandView<X>>::empty(),
        ),
        state.dispatched::<X>(Message::Remote(Msg::DeleteSyncDir(local, remote))) == (
            state,
            seq![CommandView::<X>::DeleteSyncDir(local@, remote@)],
        ),
{
}

/// The form that logs in again has the name of the remote and the service of
/// the first one of its key, and nothing else is filled in; the form that adds
/// one is empty.
pub proof fn law_form_for_a_login_again<X>(state: AppView, id: RemoteId, name: String, i: int)
    ensures
        ({
            let (after, asked) = state.dispatched::<X>(
                Message::Remote(Msg::Reauthenticate(id, name)),
            );
            let fresh = state.dispatched::<X>(Message::Main(main_page::Msg::AddRemote));
            &&& asked.len() == 0
            &&& after.add_remote_draft matches Some(form) && {
                &&& form.name == name@
                &&& form.reauth
                &&& form.url.len() == 0 && form.user.len() == 0 && form.pass.len() == 0
                &&& form.totp.len() == 0 && form.client_id.len() == 0
                &&& form.client_secret.len() == 0 && form.error is None && !form.busy
                &&& 0 <= i < state.remotes.len() && state.remotes[i].id == id && (forall|k: int|
                    0 <= k < i ==> (#[trigger] state.remotes[k]).id != id) ==> form.provider == (
                match state.remotes[i].provider_kind {
                    Some(p) => Some(form_provider(p)),
                    None => None,
                })
                &&& (forall|k: int|
                    0 <= k < state.remotes.len() ==> (#[trigger] state.remotes[k]).id != id)
                    ==> form.provider is None
            }
            &&& after == (AppView { add_remote_draft: after.add_remote_draft, ..state })
            &&& fresh == (
                AppView { add_remote_draft: Some(add_remote::empty_form()), ..state },
                Seq::<CommandView<X>>::empty(),
            )
        }),
{
    law_key_stands_for_the_first(state.remotes, id);
}

/// The kind of a remote that was loaded is the one that the client knows, read
/// by `kind_of`; where the client knows none, it stays. Nothing else of the
/// remote changes.
pub proof fn law_kind_is_the_known_one<
    C: BackendClient + ?Sized,
    K: Fn(&String) -> Option<ProviderKind>,
>(rclone: &C, kind_of: K, before: Remote, after: Remote)
    requires
        typed(rclone, kind_of, before, after),
    ensures
        after.id == before.id && after.name == before.name && after.policy == before.policy,
        (forall|name: &str, answer: Result<Option<String>, String>|
            name@ == before.name@ && #[trigger] call_ensures(
                C::remote_type,
                (rclone, name),
                answer,
            ) ==> !(answer matches Ok(Some(_)))) ==> after.provider_kind == before.provider_kind,
        after.provider_kind != before.provider_kind ==> exists|name: &str, t: String|
            {
                &&& name@ == before.name@
                &&& #[trigger] call_ensures(
                    C::remote_type,
                    (rclone, name),
                    Ok::<Option<String>, String>(Some(t)),
                )
                &&& call_ensures(kind_of, (&t,), after.provider_kind)
            },
        (forall|name: &str, answer: Result<Option<String>, String>|
            name@ == before.name@ && #[trigger] call_ensures(
                C::remote_type,
                (rclone, name),
                answer,
            ) ==> answer matches Ok(Some(_))) ==> exists|name: &str, t: String|
            {
                &&& name@ == before.name@
                &&& #[trigger] call_ensures(
                    C::remote_type,
                    (rclone, name),
                    Ok::<Option<String>, String>(Some(t)),
                )
                &&& call_ensures(kind_of, (&t,), after.provider_kind)
            },
{
}

} // verus!
