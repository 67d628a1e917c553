//! How a native Proton remote is added, logged in again, taken up at the start
//! and kept across token rotations. The credential passes between the Go side
//! and the keyring through a short-lived file; the calls, the file and the
//! keyring are outside, and what is asked of them stands here.

use crate::domain::ports::{BackendClient, Repository, RepositoryError};
use crate::domain::remote::{RemoteId, SyncPolicy};
use crate::go::proton::{LoginParams, ReusableCredential};
use crate::infrastructure::client_router::ClientRouter;
use crate::infrastructure::proton::client::NativeProtonClient;
use crate::text::{begins, decimal, join3, law_decimal_stands_for_the_number, to_decimal};
use std::sync::Arc;
use std::time::Duration;
use vstd::prelude::*;
use vstd::string::*;

verus! {

/// Something to be done outside. The file is the short-lived one of this run.
#[derive(Debug, PartialEq, Eq)]
pub enum Action {
    /// Log in.
    Login(LoginParams),
    /// Write the credential of the session to the file.
    SaveSession { uid: String },
    /// The same, only if its tokens have changed since the last time.
    SaveSessionIfRotated { uid: String },
    /// Read the file.
    ReadBlob,
    /// Put the blob into the keyring.
    Store { account: String, blob: String },
    /// Put the remote into the database.
    Record { name: String },
    /// Look into the keyring.
    Load { account: String },
    /// Write the blob to the file.
    WriteBlob { blob: String },
    /// Take up the session of the file.
    ResumeSession,
}

/// How the file could not be written.
#[derive(Debug, PartialEq, Eq)]
pub enum WriteFault {
    Creating(String),
    Writing(String),
}

/// What came of an [`Action`], one for each.
#[derive(Debug, PartialEq, Eq)]
pub enum Event {
    LoggedIn(Result<ReusableCredential, String>),
    Saved(Result<(), String>),
    Rotated(Result<bool, String>),
    BlobRead(Result<String, String>),
    Stored(Result<(), String>),
    Recorded(Result<RemoteId, String>),
    Loaded(Result<Option<String>, String>),
    BlobWritten(Result<(), WriteFault>),
    Resumed(Result<ReusableCredential, String>),
}

/// What a run is for.
#[derive(Clone, Copy, Debug, PartialEq, Eq, Structural)]
pub enum Purpose {
    /// A new remote.
    Add,
    /// A new login for a remote that is there.
    Reauth,
    /// The session of the last time.
    Resume,
    /// The tokens of a session that is in use.
    Checkpoint,
}

/// What a run waits for.
#[derive(Clone, Copy, Debug, PartialEq, Eq, Structural)]
pub enum Stage {
    Login,
    Save,
    Read,
    Store,
    Record,
    Load,
    Write,
    Resume,
}

/// A run on its way. `uid` is the session that is kept; `credential` is the
/// session that was taken up, in a run that takes one up.
#[derive(Debug, PartialEq, Eq)]
pub struct Flow {
    name: String,
    purpose: Purpose,
    stage: Stage,
    uid: String,
    credential: Option<ReusableCredential>,
}

/// What a run came to. An `Added` or a `LoggedInAgain` holds the name of the
/// remote and the handle of its new session, which [`settle`] registers.
#[derive(Debug, PartialEq, Eq)]
pub enum Finish {
    Added(RemoteId, String, String),
    LoggedInAgain(String, String),
    /// No session was kept.
    NothingKept,
    /// The session was taken up; where its rotated tokens could not be kept,
    /// the words on why, which are no reason to give it up.
    TakenUp(ReusableCredential, Option<String>),
    /// Whether tokens had changed, and are kept now.
    Kept(bool),
    Failed(String),
}

/// The next thing: something to do, whose outcome goes to the run, or the end.
#[derive(Debug, PartialEq, Eq)]
pub enum Step {
    Act(Flow, Action),
    Done(Finish),
}

/// An [`Action`] as a mathematical value.
pub enum ActionView {
    Login { username: Seq<char>, password: Seq<char>, two_fa: Seq<char>, mailbox: Seq<char> },
    SaveSession { uid: Seq<char> },
    SaveSessionIfRotated { uid: Seq<char> },
    ReadBlob,
    Store { account: Seq<char>, blob: Seq<char> },
    Record { name: Seq<char> },
    Load { account: Seq<char> },
    WriteBlob { blob: Seq<char> },
    ResumeSession,
}

/// An [`Event`] as a mathematical value.
pub enum EventView {
    LoggedIn(Result<ReusableCredential, Seq<char>>),
    Saved(Result<(), Seq<char>>),
    Rotated(Result<bool, Seq<char>>),
    BlobRead(Result<Seq<char>, Seq<char>>),
    Stored(Result<(), Seq<char>>),
    Recorded(Result<RemoteId, Seq<char>>),
    Loaded(Result<Option<Seq<char>>, Seq<char>>),
    /// An error holds the words on what failed.
    BlobWritten(Result<(), Seq<char>>),
    Resumed(Result<ReusableCredential, Seq<char>>),
}

/// A [`Flow`] as a mathematical value.
pub struct FlowView {
    pub name: Seq<char>,
    pub purpose: Purpose,
    pub stage: Stage,
    pub uid: Seq<char>,
    pub credential: Option<ReusableCredential>,
}

/// A [`Finish`] as a mathematical value.
pub enum FinishView {
    Added(RemoteId, Seq<char>, Seq<char>),
    LoggedInAgain(Seq<char>, Seq<char>),
    NothingKept,
    TakenUp(ReusableCredential, Option<Seq<char>>),
    Kept(bool),
    Failed(Seq<char>),
}

/// A [`Step`] as a mathematical value.
pub enum StepView {
    Act(FlowView, ActionView),
    Done(FinishView),
}

impl View for Action {
    type V = ActionView;

    open spec fn view(&self) -> ActionView {
        match self {
            Action::Login(p) => ActionView::Login {
                username: p.username@,
                password: p.password@,
                two_fa: p.two_fa@,
                mailbox: p.mailbox_password@,
            },
            Action::SaveSession { uid } => ActionView::SaveSession { uid: uid@ },
            Action::SaveSessionIfRotated { uid } => ActionView::SaveSessionIfRotated { uid: uid@ },
            Action::ReadBlob => ActionView::ReadBlob,
            Action::Store { account, blob } => ActionView::Store { account: account@, blob: blob@ },
            Action::Record { name } => ActionView::Record { name: name@ },
            Action::Load { account } => ActionView::Load { account: account@ },
            Action::WriteBlob { blob } => ActionView::WriteBlob { blob: blob@ },
            Action::ResumeSession => ActionView::ResumeSession,
        }
    }
}

/// The words on a file that could not be written.
pub open spec fn write_words(fault: WriteFault) -> Seq<char> {
    match fault {
        WriteFault::Creating(e) => "creating proton session tempfile: "@ + e@,
        WriteFault::Writing(e) => "writing proton session tempfile: "@ + e@,
    }
}

impl View for Event {
    type V = EventView;

    open spec fn view(&self) -> EventView {
        match self {
            Event::LoggedIn(Ok(credential)) => EventView::LoggedIn(Ok(*credential)),
            Event::LoggedIn(Err(e)) => EventView::LoggedIn(Err(e@)),
            Event::Saved(Ok(())) => EventView::Saved(Ok(())),
            Event::Saved(Err(e)) => EventView::Saved(Err(e@)),
            Event::Rotated(Ok(saved)) => EventView::Rotated(Ok(*saved)),
            Event::Rotated(Err(e)) => EventView::Rotated(Err(e@)),
            Event::BlobRead(Ok(blob)) => EventView::BlobRead(Ok(blob@)),
            Event::BlobRead(Err(e)) => EventView::BlobRead(Err(e@)),
            Event::Stored(Ok(())) => EventView::Stored(Ok(())),
            Event::Stored(Err(e)) => EventView::Stored(Err(e@)),
            Event::Recorded(Ok(id)) => EventView::Recorded(Ok(*id)),
            Event::Recorded(Err(e)) => EventView::Recorded(Err(e@)),
            Event::Loaded(Ok(Some(blob))) => EventView::Loaded(Ok(Some(blob@))),
            Event::Loaded(Ok(None)) => EventView::Loaded(Ok(None)),
            Event::Loaded(Err(e)) => EventView::Loaded(Err(e@)),
            Event::BlobWritten(Ok(())) => EventView::BlobWritten(Ok(())),
            Event::BlobWritten(Err(fault)) => EventView::BlobWritten(Err(write_words(*fault))),
            Event::Resumed(Ok(credential)) => EventView::Resumed(Ok(*credential)),
            Event::Resumed(Err(e)) => EventView::Resumed(Err(e@)),
        }
    }
}

impl View for Flow {
    type V = FlowView;

    closed spec fn view(&self) -> FlowView {
        FlowView {
            name: self.name@,
            purpose: self.purpose,
            stage: self.stage,
            uid: self.uid@,
            credential: self.credential,
        }
    }
}

impl View for Finish {
    type V = FinishView;

    open spec fn view(&self) -> FinishView {
        match self {
            Finish::Added(id, name, uid) => FinishView::Added(*id, name@, uid@),
            Finish::LoggedInAgain(name, uid) => FinishView::LoggedInAgain(name@, uid@),
            Finish::NothingKept => FinishView::NothingKept,
            Finish::TakenUp(credential, unsaved) => FinishView::TakenUp(
                *credential,
                unsaved.deep_view(),
            ),
            Finish::Kept(rotated) => FinishView::Kept(*rotated),
            Finish::Failed(e) => FinishView::Failed(e@),
        }
    }
}

impl View for Step {
    type V = StepView;

    open spec fn view(&self) -> StepView {
        match self {
            Step::Act(flow, action) => StepView::Act(flow@, action@),
            Step::Done(finish) => StepView::Done(finish@),
        }
    }
}

/// The entry of a remote in the keyring.
pub open spec fn account_of(name: Seq<char>) -> Seq<char> {
    "proton-session-"@ + name
}

/// The entry of a remote in the keyring.
pub fn proton_account(name: &str) -> (r: String)
    ensures
        r@ == account_of(name@),
{
    let mut out = "proton-session-".to_owned();
    out.append(name);
    out
}

/// The first step of a new login.
pub open spec fn login_step(
    purpose: Purpose,
    name: Seq<char>,
    username: Seq<char>,
    password: Seq<char>,
    totp: Seq<char>,
) -> StepView {
    StepView::Act(
        FlowView {
            name,
            purpose,
            stage: Stage::Login,
            uid: Seq::empty(),
            credential: None,
        },
        ActionView::Login { username, password, two_fa: totp, mailbox: Seq::empty() },
    )
}

/// The first step of taking up the session of the last time.
pub open spec fn resume_step(name: Seq<char>) -> StepView {
    StepView::Act(
        FlowView {
            name,
            purpose: Purpose::Resume,
            stage: Stage::Load,
            uid: Seq::empty(),
            credential: None,
        },
        ActionView::Load { account: account_of(name) },
    )
}

/// The first step of keeping rotated tokens.
pub open spec fn checkpoint_step(name: Seq<char>, uid: Seq<char>) -> StepView {
    StepView::Act(
        FlowView { name, purpose: Purpose::Checkpoint, stage: Stage::Save, uid, credential: None },
        ActionView::SaveSessionIfRotated { uid },
    )
}

impl FlowView {
    /// Whether `event` is what the run waits for.
    pub open spec fn awaits(self, event: EventView) -> bool {
        match self.stage {
            Stage::Login => event is LoggedIn,
            Stage::Save => match self.purpose {
                Purpose::Add | Purpose::Reauth => event is Saved,
                Purpose::Resume | Purpose::Checkpoint => event is Rotated,
            },
            Stage::Read => event is BlobRead,
            Stage::Store => event is Stored,
            Stage::Record => event is Recorded,
            Stage::Load => event is Loaded,
            Stage::Write => event is BlobWritten,
            Stage::Resume => event is Resumed,
        }
    }

    /// The end of a run that fails with `e`. A session that was taken up stays
    /// taken up, whatever became of its tokens.
    pub open spec fn failing(self, e: Seq<char>) -> StepView {
        StepView::Done(
            match self.credential {
                Some(credential) => FinishView::TakenUp(credential, Some(e)),
                None => FinishView::Failed(e),
            },
        )
    }

    /// The end of a run whose session is kept, or need not be: `rotated` says
    /// whether it was written.
    pub open spec fn kept(self, rotated: bool) -> StepView {
        match self.credential {
            Some(credential) => StepView::Done(FinishView::TakenUp(credential, None)),
            None => match self.purpose {
                Purpose::Add => StepView::Act(
                    FlowView { stage: Stage::Record, ..self },
                    ActionView::Record { name: self.name },
                ),
                Purpose::Reauth => StepView::Done(
                    FinishView::LoggedInAgain(self.name, self.uid),
                ),
                _ => StepView::Done(FinishView::Kept(rotated)),
            },
        }
    }

    /// The step after `event`.
    pub open spec fn next(self, event: EventView) -> StepView {
        match event {
            EventView::LoggedIn(Ok(credential)) => StepView::Act(
                FlowView { stage: Stage::Save, uid: credential.uid@, ..self },
                ActionView::SaveSession { uid: credential.uid@ },
            ),
            EventView::Saved(Ok(())) | EventView::Rotated(Ok(true)) => StepView::Act(
                FlowView { stage: Stage::Read, ..self },
                ActionView::ReadBlob,
            ),
            EventView::Rotated(Ok(false)) => self.kept(false),
            EventView::BlobRead(Ok(blob)) => StepView::Act(
                FlowView { stage: Stage::Store, ..self },
                ActionView::Store { account: account_of(self.name), blob },
            ),
            EventView::Stored(Ok(())) => self.kept(true),
            EventView::Recorded(Ok(id)) => StepView::Done(
                FinishView::Added(id, self.name, self.uid),
            ),
            EventView::Loaded(Ok(None)) => StepView::Done(FinishView::NothingKept),
            EventView::Loaded(Ok(Some(blob))) => StepView::Act(
                FlowView { stage: Stage::Write, ..self },
                ActionView::WriteBlob { blob },
            ),
            EventView::BlobWritten(Ok(())) => StepView::Act(
                FlowView { stage: Stage::Resume, ..self },
                ActionView::ResumeSession,
            ),
            EventView::Resumed(Ok(credential)) => StepView::Act(
                FlowView {
                    stage: Stage::Save,
                    uid: credential.uid@,
                    credential: Some(credential),
                    ..self
                },
                ActionView::SaveSessionIfRotated { uid: credential.uid@ },
            ),
            EventView::BlobRead(Err(e)) => self.failing(
                "reading proton session tempfile: "@ + e,
            ),
            EventView::LoggedIn(Err(e)) => self.failing(e),
            EventView::Saved(Err(e)) => self.failing(e),
            EventView::Rotated(Err(e)) => self.failing(e),
            EventView::Stored(Err(e)) => self.failing(e),
            EventView::Recorded(Err(e)) => self.failing(e),
            EventView::Loaded(Err(e)) => self.failing(e),
            EventView::BlobWritten(Err(e)) => self.failing(e),
            EventView::Resumed(Err(e)) => self.failing(e),
        }
    }
}

/// Logs in for a run.
fn log_in(purpose: Purpose, name: &str, username: &str, password: &str, totp: &str) -> (r: Step)
    ensures
        r@ == login_step(purpose, name@, username@, password@, totp@),
{
    let params = LoginParams {
        username: username.to_owned(),
        password: password.to_owned(),
        mailbox_password: String::new(),
        two_fa: totp.to_owned(),
    };
    let flow = Flow {
        name: name.to_owned(),
        purpose,
        stage: Stage::Login,
        uid: String::new(),
        credential: None,
    };
    Step::Act(flow, Action::Login(params))
}

/// Adds a Proton remote: logs in, keeps the session in the keyring, and puts
/// the remote into the database.
pub fn add_proton_drive_remote(name: &str, username: &str, password: &str, totp: &str) -> (r: Step)
    ensures
        r@ == login_step(Purpose::Add, name@, username@, password@, totp@),
{
    log_in(Purpose::Add, name, username, password, totp)
}

/// Logs in again for a remote whose session has expired or is gone. The
/// database stays as it is.
pub fn reauth_proton_drive_remote(
    name: &str,
    username: &str,
    password: &str,
    totp: &str,
) -> (r: Step)
    ensures
        r@ == login_step(Purpose::Reauth, name@, username@, password@, totp@),
{
    log_in(Purpose::Reauth, name, username, password, totp)
}

/// Takes up the session that is kept for a remote.
pub fn resume_session_from_keyring(remote_name: &str) -> (r: Step)
    ensures
        r@ == resume_step(remote_name@),
{
    let flow = Flow {
        name: remote_name.to_owned(),
        purpose: Purpose::Resume,
        stage: Stage::Load,
        uid: String::new(),
        credential: None,
    };
    Step::Act(flow, Action::Load { account: proton_account(remote_name) })
}

/// Keeps the tokens of the session `uid` if they have changed since the last
/// time.
pub fn persist_session_if_rotated(remote_name: &str, uid: &str) -> (r: Step)
    ensures
        r@ == checkpoint_step(remote_name@, uid@),
{
    let flow = Flow {
        name: remote_name.to_owned(),
        purpose: Purpose::Checkpoint,
        stage: Stage::Save,
        uid: uid.to_owned(),
        credential: None,
    };
    Step::Act(flow, Action::SaveSessionIfRotated { uid: uid.to_owned() })
}

/// The entry of the keyring that is to be deleted to forget the session of a
/// remote.
pub fn forget_session(remote_name: &str) -> (account: String)
    ensures
        account@ == account_of(remote_name@),
{
    proton_account(remote_name)
}

impl Flow {
    /// The end of a run that fails with `e`.
    fn fail(self, e: String) -> (r: Step)
        ensures
            r@ == self@.failing(e@),
    {
        match self.credential {
            Some(credential) => Step::Done(Finish::TakenUp(credential, Some(e))),
            None => Step::Done(Finish::Failed(e)),
        }
    }

    /// The end of a run whose session is kept, or need not be.
    fn keep(self, rotated: bool) -> (r: Step)
        ensures
            r@ == self@.kept(rotated),
    {
        match self.credential {
            Some(credential) => Step::Done(Finish::TakenUp(credential, None)),
            None => match self.purpose {
                Purpose::Add => {
                    let name = self.name.clone();
                    Step::Act(Flow { stage: Stage::Record, ..self }, Action::Record { name })
                },
                Purpose::Reauth => Step::Done(Finish::LoggedInAgain(self.name, self.uid)),
                _ => Step::Done(Finish::Kept(rotated)),
            },
        }
    }

    /// The step after `event`, the outcome of what the run waits for.
    pub fn resume(self, event: Event) -> (r: Step)
        requires
            self@.awaits(event@),
        ensures
            r@ == self@.next(event@),
    {
        match event {
            Event::LoggedIn(Ok(credential)) => {
                let uid = credential.uid.clone();
                let flow = Flow { stage: Stage::Save, uid: credential.uid, ..self };
                Step::Act(flow, Action::SaveSession { uid })
            },
            Event::Saved(Ok(())) => Step::Act(
                Flow { stage: Stage::Read, ..self },
                Action::ReadBlob,
            ),
            Event::Rotated(Ok(saved)) => if saved {
                Step::Act(Flow { stage: Stage::Read, ..self }, Action::ReadBlob)
            } else {
                self.keep(false)
            },
            Event::BlobRead(Ok(blob)) => {
                let account = proton_account(self.name.as_str());
                Step::Act(Flow { stage: Stage::Store, ..self }, Action::Store { account, blob })
            },
            Event::Stored(Ok(())) => self.keep(true),
            Event::Recorded(Ok(id)) => Step::Done(Finish::Added(id, self.name, self.uid)),
            Event::Loaded(Ok(None)) => Step::Done(Finish::NothingKept),
            Event::Loaded(Ok(Some(blob))) => Step::Act(
                Flow { stage: Stage::Write, ..self },
                Action::WriteBlob { blob },
            ),
            Event::BlobWritten(Ok(())) => Step::Act(
                Flow { stage: Stage::Resume, ..self },
                Action::ResumeSession,
            ),
            Event::Resumed(Ok(credential)) => {
                let uid = credential.uid.clone();
                let flow = Flow {
                    stage: Stage::Save,
                    uid: credential.uid.clone(),
                    credential: Some(credential),
                    ..self
                };
                Step::Act(flow, Action::SaveSessionIfRotated { uid })
            },
            Event::BlobRead(Err(e)) => {
                let mut words = "reading proton session tempfile: ".to_owned();
                words.append(e.as_str());
                self.fail(words)
            },
            Event::BlobWritten(Err(WriteFault::Creating(e))) => {
                let mut words = "creating proton session tempfile: ".to_owned();
                words.append(e.as_str());
                self.fail(words)
            },
            Event::BlobWritten(Err(WriteFault::Writing(e))) => {
                let mut words = "writing proton session tempfile: ".to_owned();
                words.append(e.as_str());
                self.fail(words)
            },
            Event::LoggedIn(Err(e)) => self.fail(e),
            Event::Saved(Err(e)) => self.fail(e),
            Event::Rotated(Err(e)) => self.fail(e),
            Event::Stored(Err(e)) => self.fail(e),
            Event::Recorded(Err(e)) => self.fail(e),
            Event::Loaded(Err(e)) => self.fail(e),
            Event::Resumed(Err(e)) => self.fail(e),
        }
    }
}

impl FinishView {
    /// The name that the run has a new session for, and the handle of the
    /// session.
    pub open spec fn new_session(self) -> Option<(Seq<char>, Seq<char>)> {
        match self {
            FinishView::Added(_, name, uid) => Some((name, uid)),
            FinishView::LoggedInAgain(name, uid) => Some((name, uid)),
            _ => None,
        }
    }
}

impl Finish {
    /// An adapter for the session that the run has logged in to.
    pub fn session_client(&self) -> (r: Option<NativeProtonClient>)
        ensures
            match self@.new_session() {
                Some((_, uid)) => r matches Some(client) && client.session() == uid,
                None => r is None,
            },
    {
        match self {
            Finish::Added(_, _, uid) => Some(NativeProtonClient::new(uid.clone())),
            Finish::LoggedInAgain(_, uid) => Some(NativeProtonClient::new(uid.clone())),
            _ => None,
        }
    }
}

/// Serves the remote that the run was for with `client`, where the run has
/// logged in. Any other end leaves the router as it is.
pub fn settle<C: BackendClient + ?Sized>(
    finish: &Finish,
    router: &mut ClientRouter<C>,
    client: Arc<C>,
)
    ensures
        final(router).fallback() == old(router).fallback(),
        match finish@.new_session() {
            Some((name, _)) => {
                &&& final(router).overrides() == old(router).overrides().insert(name, client)
                &&& final(router).client_of(name) == client
            },
            None => final(router).overrides() == old(router).overrides(),
        },
{
    match finish {
        Finish::Added(_, name, _) => router.register(name.clone(), client),
        Finish::LoggedInAgain(name, _) => router.register(name.clone(), client),
        _ => {},
    }
}

/// What putting a remote into the database comes to, when the insertion gives
/// `inserted`.
pub open spec fn recorded(inserted: Result<RemoteId, RepositoryError>) -> Result<
    RemoteId,
    Seq<char>,
> {
    match inserted {
        Ok(id) => Ok(id),
        Err(e) => Err(e.words()),
    }
}

/// Puts a Proton remote into the database, marked as one whose session is in
/// the keyring, and gives it the polling interval of the provider. That the
/// policy could not be set is no reason to fail.
pub fn record_remote<R: Repository + ?Sized>(repo: &R, name: &str, interval: Duration) -> (r:
    Result<RemoteId, String>)
    ensures
        exists|n: String, marker: String, inserted: Result<RemoteId, RepositoryError>|
            {
                &&& n@ == name@
                &&& marker@ == "keyring"@
                &&& #[trigger] call_ensures(
                    R::insert_native_proton_remote,
                    (repo, n, marker),
                    inserted,
                )
                &&& match r {
                    Ok(id) => recorded(inserted) == Ok::<RemoteId, Seq<char>>(id),
                    Err(e) => recorded(inserted) == Err::<RemoteId, Seq<char>>(e@),
                }
            },
        r matches Ok(id) ==> exists|done: Result<(), RepositoryError>|
            call_ensures(
                R::set_policy,
                (repo, id, SyncPolicy { interval, enabled: true }),
                done,
            ),
{
    match repo.insert_native_proton_remote(name.to_owned(), "keyring".to_owned()) {
        Ok(id) => {
            let _done = repo.set_policy(id, SyncPolicy { interval, enabled: true });
            Ok(id)
        },
        Err(e) => Err(e.message()),
    }
}

/// The name of a short-lived credential file.
pub open spec fn tempfile_words(tag: Seq<char>, pid: nat, nanos: nat) -> Seq<char> {
    "celeste-proton-"@ + tag + "-"@ + decimal(pid) + "-"@ + decimal(nanos) + ".json"@
}

/// The name of a short-lived credential file: what it is for, the process and
/// the time.
pub fn tempfile_name(tag: &str, pid: u32, nanos: u128) -> (r: String)
    ensures
        r@ == tempfile_words(tag@, pid as nat, nanos as nat),
{
    let mut out = join3("celeste-proton-", tag, "-");
    out.append(to_decimal(pid as u128).as_str());
    out.append("-");
    out.append(to_decimal(nanos).as_str());
    out.append(".json");
    out
}

/// Whether `event` is the kind of outcome that `action` has.
pub open spec fn fits(action: ActionView, event: EventView) -> bool {
    match action {
        ActionView::Login { .. } => event is LoggedIn,
        ActionView::SaveSession { .. } => event is Saved,
        ActionView::SaveSessionIfRotated { .. } => event is Rotated,
        ActionView::ReadBlob => event is BlobRead,
        ActionView::Store { .. } => event is Stored,
        ActionView::Record { .. } => event is Recorded,
        ActionView::Load { .. } => event is Loaded,
        ActionView::WriteBlob { .. } => event is BlobWritten,
        ActionView::ResumeSession => event is Resumed,
    }
}

/// A step that can go on: whatever comes of its action is what its run awaits.
pub open spec fn can_go_on(step: StepView) -> bool {
    step matches StepView::Act(flow, action) ==> forall|event: EventView| #[trigger]
        fits(action, event) ==> flow.awaits(event)
}

/// A run that is where its purpose can take it.
pub open spec fn sound(flow: FlowView) -> bool {
    &&& flow.stage == Stage::Login ==> (flow.purpose == Purpose::Add || flow.purpose
        == Purpose::Reauth)
    &&& flow.stage == Stage::Resume ==> flow.purpose == Purpose::Resume
    &&& flow.stage == Stage::Load ==> flow.purpose == Purpose::Resume
    &&& flow.stage == Stage::Write ==> flow.purpose == Purpose::Resume
    &&& flow.stage == Stage::Record ==> flow.purpose == Purpose::Add
}

/// Every run starts sound and with a step that can go on.
pub proof fn law_starts_go_on(
    purpose: Purpose,
    name: Seq<char>,
    uid: Seq<char>,
    username: Seq<char>,
    password: Seq<char>,
    totp: Seq<char>,
)
    requires
        purpose == Purpose::Add || purpose == Purpose::Reauth,
    ensures
        can_go_on(login_step(purpose, name, username, password, totp)),
        can_go_on(resume_step(name)),
        can_go_on(checkpoint_step(name, uid)),
        sound(login_step(purpose, name, username, password, totp)->Act_0),
        sound(resume_step(name)->Act_0),
        sound(checkpoint_step(name, uid)->Act_0),
{
}

/// A sound run stays sound and never gets stuck on an outcome.
pub proof fn law_next_goes_on(flow: FlowView, event: EventView)
    requires
        sound(flow),
        flow.awaits(event),
    ensures
        can_go_on(flow.next(event)),
        flow.next(event) matches StepView::Act(after, _) ==> sound(after),
{
}

/// Everything that a run asks for while `events` come, from `step` on.
pub open spec fn asked(step: StepView, events: Seq<EventView>) -> Seq<ActionView>
    decreases events.len(),
{
    match step {
        StepView::Done(_) => Seq::empty(),
        StepView::Act(flow, action) => if events.len() == 0 {
            seq![action]
        } else {
            seq![action] + asked(flow.next(events[0]), events.drop_first())
        },
    }
}

/// A step of a run that does not add.
spec fn adds_nothing(step: StepView) -> bool {
    step matches StepView::Act(flow, action) ==> flow.purpose != Purpose::Add && !(action is Record)
}

/// Runs that do not add never ask for the database.
proof fn lemma_adds_nothing(step: StepView, events: Seq<EventView>)
    requires
        adds_nothing(step),
    ensures
        forall|i: int| 0 <= i < asked(step, events).len() ==> !(#[trigger] asked(step, events)[i] is Record),
    decreases events.len(),
{
    match step {
        StepView::Done(_) => {},
        StepView::Act(flow, action) => if events.len() > 0 {
            lemma_adds_nothing(flow.next(events[0]), events.drop_first());
            let rest = asked(flow.next(events[0]), events.drop_first());
            assert forall|i: int| 0 <= i < asked(step, events).len() implies !(#[trigger] asked(
                step,
                events,
            )[i] is Record) by {
                if i > 0 {
                    assert(asked(step, events)[i] == rest[i - 1]);
                }
            }
        },
    }
}

/// Logging in again leaves the database alone, whatever happens: the remote
/// keeps its row, its directories and its exclusions.
pub proof fn law_reauth_keeps_database(
    name: Seq<char>,
    username: Seq<char>,
    password: Seq<char>,
    totp: Seq<char>,
    events: Seq<EventView>,
)
    ensures
        forall|i: int|
            0 <= i < asked(
                login_step(Purpose::Reauth, name, username, password, totp),
                events,
            ).len() ==> !(#[trigger] asked(
                login_step(Purpose::Reauth, name, username, password, totp),
                events,
            )[i] is Record),
{
    lemma_adds_nothing(login_step(Purpose::Reauth, name, username, password, totp), events);
}

/// A remote reaches the database only after its session reached the keyring,
/// and it is added, or logged in again, only after that.
pub proof fn law_session_is_kept_first(flow: FlowView, event: EventView)
    requires
        sound(flow),
        flow.awaits(event),
    ensures
        flow.next(event) matches StepView::Act(_, ActionView::Record { .. }) ==> flow.stage
            == Stage::Store && event matches EventView::Stored(Ok(_)),
        flow.next(event) matches StepView::Done(FinishView::Added(_, _, _)) ==> flow.stage
            == Stage::Record && event is Recorded,
        flow.next(event) matches StepView::Done(FinishView::LoggedInAgain(_, _)) ==> flow.stage
            == Stage::Store && event matches EventView::Stored(Ok(_)),
{
}

/// What goes into the keyring goes under the name of the remote, and it is what
/// was read from the file.
pub proof fn law_stored_under_own_name(flow: FlowView, event: EventView)
    requires
        flow.awaits(event),
    ensures
        flow.next(event) matches StepView::Act(after, ActionView::Store { account, blob })
            ==> account == account_of(flow.name) && event == EventView::BlobRead(Ok(blob)) && after.name
            == flow.name,
{
}

/// Two remotes of different names have different entries in the keyring.
pub proof fn law_accounts_differ(a: Seq<char>, b: Seq<char>)
    ensures
        account_of(a) == account_of(b) <==> a == b,
        account_of(a) == "proton-session-"@ + a,
{
    if account_of(a) == account_of(b) {
        let prefix = "proton-session-"@;
        assert(account_of(a).skip(prefix.len() as int) =~= a);
        assert(account_of(b).skip(prefix.len() as int) =~= b);
    }
}

/// A session that was taken up is never given up: however keeping its tokens
/// ends, the run ends with the session.
pub proof fn law_taken_up_stays(flow: FlowView, event: EventView, credential: ReusableCredential)
    requires
        flow.credential == Some(credential),
        flow.awaits(event),
        flow.stage == Stage::Save || flow.stage == Stage::Read || flow.stage == Stage::Store,
        flow.purpose == Purpose::Resume,
    ensures
        match flow.next(event) {
            StepView::Act(after, _) => after.credential == Some(credential) && (after.stage
                == Stage::Read || after.stage == Stage::Store),
            StepView::Done(finish) => finish matches FinishView::TakenUp(kept, _) && kept
                == credential,
        },
{
}

/// What reading the file and putting it into the keyring comes to, in a world
/// where each action has the outcome that `world` says.
pub open spec fn moved_to_keyring(world: spec_fn(ActionView) -> EventView, name: Seq<char>) -> Result<
    (),
    Seq<char>,
> {
    match world(ActionView::ReadBlob) {
        EventView::BlobRead(Ok(blob)) => match world(
            ActionView::Store { account: account_of(name), blob },
        ) {
            EventView::Stored(done) => done,
            _ => Ok(()),
        },
        EventView::BlobRead(Err(e)) => Err("reading proton session tempfile: "@ + e),
        _ => Ok(()),
    }
}

/// What keeping a fresh session comes to.
pub open spec fn session_kept(
    world: spec_fn(ActionView) -> EventView,
    name: Seq<char>,
    uid: Seq<char>,
) -> Result<(), Seq<char>> {
    match world(ActionView::SaveSession { uid }) {
        EventView::Saved(Ok(())) => moved_to_keyring(world, name),
        EventView::Saved(Err(e)) => Err(e),
        _ => Ok(()),
    }
}

/// What keeping rotated tokens comes to: whether there were any.
pub open spec fn rotation_kept(
    world: spec_fn(ActionView) -> EventView,
    name: Seq<char>,
    uid: Seq<char>,
) -> Result<bool, Seq<char>> {
    match world(ActionView::SaveSessionIfRotated { uid }) {
        EventView::Rotated(Ok(true)) => match moved_to_keyring(world, name) {
            Ok(()) => Ok(true),
            Err(e) => Err(e),
        },
        EventView::Rotated(Ok(false)) => Ok(false),
        EventView::Rotated(Err(e)) => Err(e),
        _ => Ok(false),
    }
}

/// What a new login comes to, told without its steps.
pub open spec fn login_outcome(
    world: spec_fn(ActionView) -> EventView,
    purpose: Purpose,
    name: Seq<char>,
    login: ActionView,
) -> FinishView {
    match world(login) {
        EventView::LoggedIn(Ok(credential)) => match session_kept(world, name, credential.uid@) {
            Ok(()) => if purpose == Purpose::Add {
                match world(ActionView::Record { name }) {
                    EventView::Recorded(Ok(id)) => FinishView::Added(id, name, credential.uid@),
                    EventView::Recorded(Err(e)) => FinishView::Failed(e),
                    _ => FinishView::NothingKept,
                }
            } else {
                FinishView::LoggedInAgain(name, credential.uid@)
            },
            Err(e) => FinishView::Failed(e),
        },
        EventView::LoggedIn(Err(e)) => FinishView::Failed(e),
        _ => FinishView::NothingKept,
    }
}

/// What taking up the session of the last time comes to, told without its
/// steps.
pub open spec fn resume_outcome(world: spec_fn(ActionView) -> EventView, name: Seq<char>) -> FinishView {
    match world(ActionView::Load { account: account_of(name) }) {
        EventView::Loaded(Ok(Some(blob))) => match world(ActionView::WriteBlob { blob }) {
            EventView::BlobWritten(Ok(())) => match world(ActionView::ResumeSession) {
                EventView::Resumed(Ok(credential)) => match rotation_kept(
                    world,
                    name,
                    credential.uid@,
                ) {
                    Ok(_) => FinishView::TakenUp(credential, None),
                    Err(e) => FinishView::TakenUp(credential, Some(e)),
                },
                EventView::Resumed(Err(e)) => FinishView::Failed(e),
                _ => FinishView::NothingKept,
            },
            EventView::BlobWritten(Err(e)) => FinishView::Failed(e),
            _ => FinishView::NothingKept,
        },
        EventView::Loaded(Ok(None)) => FinishView::NothingKept,
        EventView::Loaded(Err(e)) => FinishView::Failed(e),
        _ => FinishView::NothingKept,
    }
}

/// What comes of `step` within so many actions.
pub open spec fn run(step: StepView, world: spec_fn(ActionView) -> EventView, actions: nat) -> Option<
    FinishView,
>
    decreases actions,
{
    match step {
        StepView::Done(finish) => Some(finish),
        StepView::Act(flow, action) => if actions == 0 {
            None
        } else {
            run(flow.next(world(action)), world, (actions - 1) as nat)
        },
    }
}

/// The end of every run that saves: the file is read and its blob put into the
/// keyring.
proof fn lemma_moved(flow: FlowView, world: spec_fn(ActionView) -> EventView, actions: nat)
    requires
        forall|action: ActionView| fits(action, #[trigger] world(action)),
        actions >= 3,
        flow.stage == Stage::Read,
        flow.purpose == Purpose::Add ==> flow.credential is None,
    ensures
        run(StepView::Act(flow, ActionView::ReadBlob), world, actions) == (match moved_to_keyring(
            world,
            flow.name,
        ) {
            Ok(()) => run(
                FlowView { stage: Stage::Store, ..flow }.kept(true),
                world,
                (actions - 2) as nat,
            ),
            Err(e) => run(flow.failing(e), world, (actions - 2) as nat),
        }),
{
    let read = world(ActionView::ReadBlob);
    assert(fits(ActionView::ReadBlob, read));
    match read {
        EventView::BlobRead(Ok(blob)) => {
            let store = ActionView::Store { account: account_of(flow.name), blob };
            assert(fits(store, world(store)));
            let waiting = FlowView { stage: Stage::Store, ..flow };
            assert(flow.next(read) == StepView::Act(waiting, store));
            assert(run(StepView::Act(flow, ActionView::ReadBlob), world, actions) == run(
                StepView::Act(waiting, store),
                world,
                (actions - 1) as nat,
            ));
            assert(run(StepView::Act(waiting, store), world, (actions - 1) as nat) == run(
                waiting.next(world(store)),
                world,
                (actions - 2) as nat,
            ));
        },
        _ => {
            reveal_with_fuel(run, 3);
        },
    }
}

/// Adding a remote and logging in again come to what is said of them.
pub proof fn law_login_leads_to_outcome(
    world: spec_fn(ActionView) -> EventView,
    purpose: Purpose,
    name: Seq<char>,
    username: Seq<char>,
    password: Seq<char>,
    totp: Seq<char>,
)
    requires
        forall|action: ActionView| fits(action, #[trigger] world(action)),
        purpose == Purpose::Add || purpose == Purpose::Reauth,
    ensures
        run(login_step(purpose, name, username, password, totp), world, 5) == Some(
            login_outcome(
                world,
                purpose,
                name,
                ActionView::Login { username, password, two_fa: totp, mailbox: Seq::empty() },
            ),
        ),
{
    let login = ActionView::Login { username, password, two_fa: totp, mailbox: Seq::empty() };
    let flow = login_step(purpose, name, username, password, totp)->Act_0;
    assert(fits(login, world(login)));
    match world(login) {
        EventView::LoggedIn(Ok(credential)) => {
            let saving = FlowView { stage: Stage::Save, uid: credential.uid@, ..flow };
            let save = ActionView::SaveSession { uid: credential.uid@ };
            assert(fits(save, world(save)));
            assert(flow.next(world(login)) == StepView::Act(saving, save));
            match world(save) {
                EventView::Saved(Ok(())) => {
                    let reading = FlowView { stage: Stage::Read, ..saving };
                    assert(saving.next(world(save)) == StepView::Act(reading, ActionView::ReadBlob));
                    lemma_moved(reading, world, 3);
                    let record = ActionView::Record { name };
                    assert(fits(record, world(record)));
                    reveal_with_fuel(run, 6);
                },
                _ => {
                    reveal_with_fuel(run, 4);
                },
            }
        },
        _ => {
            reveal_with_fuel(run, 3);
        },
    }
}

/// Keeping rotated tokens comes to what is said of it.
pub proof fn law_checkpoint_leads_to_outcome(
    world: spec_fn(ActionView) -> EventView,
    name: Seq<char>,
    uid: Seq<char>,
)
    requires
        forall|action: ActionView| fits(action, #[trigger] world(action)),
    ensures
        run(checkpoint_step(name, uid), world, 4) == Some(
            match rotation_kept(world, name, uid) {
                Ok(rotated) => FinishView::Kept(rotated),
                Err(e) => FinishView::Failed(e),
            },
        ),
{
    let save = ActionView::SaveSessionIfRotated { uid };
    let flow = checkpoint_step(name, uid)->Act_0;
    assert(fits(save, world(save)));
    match world(save) {
        EventView::Rotated(Ok(true)) => {
            let reading = FlowView { stage: Stage::Read, ..flow };
            assert(flow.next(world(save)) == StepView::Act(reading, ActionView::ReadBlob));
            lemma_moved(reading, world, 3);
            reveal_with_fuel(run, 5);
        },
        _ => {
            reveal_with_fuel(run, 3);
        },
    }
}

/// Taking up the session of the last time comes to what is said of it.
pub proof fn law_resume_leads_to_outcome(world: spec_fn(ActionView) -> EventView, name: Seq<char>)
    requires
        forall|action: ActionView| fits(action, #[trigger] world(action)),
    ensures
        run(resume_step(name), world, 7) == Some(resume_outcome(world, name)),
{
    let load = ActionView::Load { account: account_of(name) };
    let loading = resume_step(name)->Act_0;
    assert(fits(load, world(load)));
    match world(load) {
        EventView::Loaded(Ok(Some(blob))) => {
            let write = ActionView::WriteBlob { blob };
            let writing = FlowView { stage: Stage::Write, ..loading };
            assert(fits(write, world(write)));
            assert(loading.next(world(load)) == StepView::Act(writing, write));
            match world(write) {
                EventView::BlobWritten(Ok(())) => {
                    let resume = ActionView::ResumeSession;
                    let resuming = FlowView { stage: Stage::Resume, ..writing };
                    assert(fits(resume, world(resume)));
                    assert(writing.next(world(write)) == StepView::Act(resuming, resume));
                    match world(resume) {
                        EventView::Resumed(Ok(credential)) => {
                            let save = ActionView::SaveSessionIfRotated { uid: credential.uid@ };
                            let saving = FlowView {
                                stage: Stage::Save,
                                uid: credential.uid@,
                                credential: Some(credential),
                                ..resuming
                            };
                            assert(fits(save, world(save)));
                            assert(resuming.next(world(resume)) == StepView::Act(saving, save));
                            match world(save) {
                                EventView::Rotated(Ok(true)) => {
                                    let reading = FlowView { stage: Stage::Read, ..saving };
                                    assert(saving.next(world(save)) == StepView::Act(
                                        reading,
                                        ActionView::ReadBlob,
                                    ));
                                    lemma_moved(reading, world, 3);
                                    reveal_with_fuel(run, 8);
                                },
                                _ => {
                                    reveal_with_fuel(run, 6);
                                },
                            }
                        },
                        _ => {
                            reveal_with_fuel(run, 5);
                        },
                    }
                },
                _ => {
                    reveal_with_fuel(run, 4);
                },
            }
        },
        _ => {
            reveal_with_fuel(run, 3);
        },
    }
}

/// A login is asked for with what was entered; taking up a session asks for the
/// keyring entry of the remote, and keeping one asks for that session.
pub proof fn law_starts_with_what_was_given(
    purpose: Purpose,
    name: Seq<char>,
    uid: Seq<char>,
    username: Seq<char>,
    password: Seq<char>,
    totp: Seq<char>,
)
    ensures
        login_step(purpose, name, username, password, totp) matches StepView::Act(
            flow,
            ActionView::Login { username: u, password: p, two_fa, mailbox },
        ) && u == username && p == password && two_fa == totp && mailbox.len() == 0 && flow.name
            == name && flow.purpose == purpose && flow.credential is None,
        resume_step(name) matches StepView::Act(flow, ActionView::Load { account }) && account
            == "proton-session-"@ + name && flow.name == name && flow.purpose == Purpose::Resume
            && flow.credential is None,
        checkpoint_step(name, uid) matches StepView::Act(
            flow,
            ActionView::SaveSessionIfRotated { uid: asked },
        ) && asked == uid && flow.uid == uid && flow.name == name && flow.purpose
            == Purpose::Checkpoint && flow.credential is None,
{
}

/// Between two steps a run keeps its name and what it is for; the session that
/// it keeps changes only by a login or by taking one up, and is then the new
/// one.
pub proof fn law_run_stays_the_same(flow: FlowView, event: EventView)
    ensures
        flow.next(event) matches StepView::Act(after, _) ==> {
            &&& after.name == flow.name
            &&& after.purpose == flow.purpose
            &&& match event {
                EventView::LoggedIn(Ok(credential)) => after.uid == credential.uid@
                    && after.credential == flow.credential,
                EventView::Resumed(Ok(credential)) => after.uid == credential.uid@
                    && after.credential == Some(credential),
                _ => after.uid == flow.uid && after.credential == flow.credential,
            }
        },
{
}

/// A new login ends with its session: where each action succeeds, the session
/// of the login is saved, what was saved goes to the keyring under the name of
/// the remote, and a remote that is added goes to the database.
pub proof fn law_login_ends_with_its_session(
    world: spec_fn(ActionView) -> EventView,
    purpose: Purpose,
    name: Seq<char>,
    username: Seq<char>,
    password: Seq<char>,
    totp: Seq<char>,
    credential: ReusableCredential,
    blob: Seq<char>,
    id: RemoteId,
)
    requires
        forall|action: ActionView| fits(action, #[trigger] world(action)),
        purpose == Purpose::Add || purpose == Purpose::Reauth,
        world(ActionView::Login { username, password, two_fa: totp, mailbox: Seq::empty() })
            == EventView::LoggedIn(Ok(credential)),
        world(ActionView::SaveSession { uid: credential.uid@ }) == EventView::Saved(Ok(())),
        world(ActionView::ReadBlob) == EventView::BlobRead(Ok(blob)),
        world(ActionView::Store { account: "proton-session-"@ + name, blob }) == EventView::Stored(
            Ok(()),
        ),
        world(ActionView::Record { name }) == EventView::Recorded(Ok(id)),
    ensures
        run(login_step(purpose, name, username, password, totp), world, 5) == Some(
            if purpose == Purpose::Add {
                FinishView::Added(id, name, credential.uid@)
            } else {
                FinishView::LoggedInAgain(name, credential.uid@)
            },
        ),
{
    law_login_leads_to_outcome(world, purpose, name, username, password, totp);
}

/// A new login fails with the words of the first action that fails; words on a
/// file that could not be read say so.
pub proof fn law_login_fails_with_the_first_failure(
    world: spec_fn(ActionView) -> EventView,
    purpose: Purpose,
    name: Seq<char>,
    username: Seq<char>,
    password: Seq<char>,
    totp: Seq<char>,
    credential: ReusableCredential,
    blob: Seq<char>,
    e: Seq<char>,
)
    requires
        forall|action: ActionView| fits(action, #[trigger] world(action)),
        purpose == Purpose::Add || purpose == Purpose::Reauth,
    ensures
        ({
            let login = ActionView::Login {
                username,
                password,
                two_fa: totp,
                mailbox: Seq::empty(),
            };
            let save = ActionView::SaveSession { uid: credential.uid@ };
            let store = ActionView::Store { account: "proton-session-"@ + name, blob };
            let end = run(login_step(purpose, name, username, password, totp), world, 5);
            &&& world(login) == EventView::LoggedIn(Err(e)) ==> end == Some(FinishView::Failed(e))
            &&& world(login) == EventView::LoggedIn(Ok(credential)) ==> {
                &&& world(save) == EventView::Saved(Err(e)) ==> end == Some(FinishView::Failed(e))
                &&& world(save) == EventView::Saved(Ok(())) ==> {
                    &&& world(ActionView::ReadBlob) == EventView::BlobRead(Err(e)) ==> end == Some(
                        FinishView::Failed("reading proton session tempfile: "@ + e),
                    )
                    &&& world(ActionView::ReadBlob) == EventView::BlobRead(Ok(blob)) ==> {
                        &&& world(store) == EventView::Stored(Err(e)) ==> end == Some(
                            FinishView::Failed(e),
                        )
                        &&& world(store) == EventView::Stored(Ok(())) && purpose == Purpose::Add
                            && world(ActionView::Record { name }) == EventView::Recorded(Err(e))
                            ==> end == Some(FinishView::Failed(e))
                    }
                }
            }
        }),
{
    law_login_leads_to_outcome(world, purpose, name, username, password, totp);
}

/// Taking up the session of the last time: nothing where none was kept, the
/// words of the failure where the keyring, the file or the server fails, and
/// otherwise the session that the server gave for what was kept. Whether its
/// rotated tokens could be kept is only told.
pub proof fn law_kept_session_is_taken_up(
    world: spec_fn(ActionView) -> EventView,
    name: Seq<char>,
    kept: Seq<char>,
    credential: ReusableCredential,
    blob: Seq<char>,
    e: Seq<char>,
)
    requires
        forall|action: ActionView| fits(action, #[trigger] world(action)),
    ensures
        ({
            let load = ActionView::Load { account: "proton-session-"@ + name };
            let write = ActionView::WriteBlob { blob: kept };
            let save = ActionView::SaveSessionIfRotated { uid: credential.uid@ };
            let store = ActionView::Store { account: "proton-session-"@ + name, blob };
            let end = run(resume_step(name), world, 7);
            &&& world(load) == EventView::Loaded(Ok(None)) ==> end == Some(FinishView::NothingKept)
            &&& world(load) == EventView::Loaded(Err(e)) ==> end == Some(FinishView::Failed(e))
            &&& world(load) == EventView::Loaded(Ok(Some(kept))) ==> {
                &&& world(write) == EventView::BlobWritten(Err(e)) ==> end == Some(
                    FinishView::Failed(e),
                )
                &&& world(write) == EventView::BlobWritten(Ok(())) ==> {
                    let resumed = world(ActionView::ResumeSession);
                    &&& resumed == EventView::Resumed(Err(e)) ==> end == Some(FinishView::Failed(e))
                    &&& resumed == EventView::Resumed(Ok(credential)) ==> {
                        &&& world(save) == EventView::Rotated(Ok(false)) ==> end == Some(
                            FinishView::TakenUp(credential, None),
                        )
                        &&& world(save) == EventView::Rotated(Err(e)) ==> end == Some(
                            FinishView::TakenUp(credential, Some(e)),
                        )
                        &&& world(save) == EventView::Rotated(Ok(true)) && world(
                            ActionView::ReadBlob,
                        ) == EventView::BlobRead(Err(e)) ==> end == Some(
                            FinishView::TakenUp(
                                credential,
                                Some("reading proton session tempfile: "@ + e),
                            ),
                        )
                        &&& world(save) == EventView::Rotated(Ok(true)) && world(
                            ActionView::ReadBlob,
                        ) == EventView::BlobRead(Ok(blob)) ==> {
                            &&& world(store) == EventView::Stored(Ok(())) ==> end == Some(
                                FinishView::TakenUp(credential, None),
                            )
                            &&& world(store) == EventView::Stored(Err(e)) ==> end == Some(
                                FinishView::TakenUp(credential, Some(e)),
                            )
                        }
                    }
                }
            }
        }),
{
    law_resume_leads_to_outcome(world, name);
}

/// Keeping rotated tokens: nothing is written where none have changed; where
/// they have, what was saved goes to the keyring under the name of the remote;
/// what fails is told in its words.
pub proof fn law_rotated_tokens_are_kept(
    world: spec_fn(ActionView) -> EventView,
    name: Seq<char>,
    uid: Seq<char>,
    blob: Seq<char>,
    e: Seq<char>,
)
    requires
        forall|action: ActionView| fits(action, #[trigger] world(action)),
    ensures
        ({
            let save = ActionView::SaveSessionIfRotated { uid };
            let store = ActionView::Store { account: "proton-session-"@ + name, blob };
            let read = world(ActionView::ReadBlob);
            let end = run(checkpoint_step(name, uid), world, 4);
            &&& world(save) == EventView::Rotated(Ok(false)) ==> end == Some(
                FinishView::Kept(false),
            )
            &&& world(save) == EventView::Rotated(Err(e)) ==> end == Some(FinishView::Failed(e))
            &&& world(save) == EventView::Rotated(Ok(true)) ==> {
                &&& read == EventView::BlobRead(Err(e)) ==> end == Some(
                    FinishView::Failed("reading proton session tempfile: "@ + e),
                )
                &&& read == EventView::BlobRead(Ok(blob)) && world(store) == EventView::Stored(
                    Ok(()),
                ) ==> end == Some(FinishView::Kept(true))
                &&& read == EventView::BlobRead(Ok(blob)) && world(store) == EventView::Stored(
                    Err(e),
                ) ==> end == Some(FinishView::Failed(e))
            }
        }),
{
    law_checkpoint_leads_to_outcome(world, name, uid);
}

/// A run has a new session exactly where it has logged in, with the name and
/// the session that it ended with.
pub proof fn law_new_session_is_the_one_logged_in_to(
    id: RemoteId,
    name: Seq<char>,
    uid: Seq<char>,
    credential: ReusableCredential,
    unsaved: Option<Seq<char>>,
    rotated: bool,
)
    ensures
        FinishView::Added(id, name, uid).new_session() == Some((name, uid)),
        FinishView::LoggedInAgain(name, uid).new_session() == Some((name, uid)),
        FinishView::NothingKept.new_session() is None,
        FinishView::TakenUp(credential, unsaved).new_session() is None,
        FinishView::Kept(rotated).new_session() is None,
        FinishView::Failed(name).new_session() is None,
{
}

/// A remote is recorded exactly where the database took it, under the key that
/// the database gave.
pub proof fn law_recorded_as_the_database_says(id: RemoteId, e: RepositoryError)
    ensures
        recorded(Ok(id)) == Ok::<RemoteId, Seq<char>>(id),
        recorded(Err(e)) == Err::<RemoteId, Seq<char>>(e.words()),
{
}

/// Words on a file that could not be written say what failed, and end with why.
pub proof fn law_write_words_say_why(e: String)
    ensures
        write_words(WriteFault::Creating(e)) == "creating proton session tempfile: "@ + e@,
        write_words(WriteFault::Writing(e)) == "writing proton session tempfile: "@ + e@,
{
}

/// The name of a credential file begins with what it is for and ends with the
/// time, and it tells two processes at the same time apart.
pub proof fn law_tempfile_names(tag: Seq<char>, pid: nat, other: nat, nanos: nat)
    ensures
        begins(tempfile_words(tag, pid, nanos), "celeste-proton-"@ + tag + "-"@),
        exists|head: Seq<char>| tempfile_words(tag, pid, nanos) == #[trigger] (head + (decimal(
            nanos,
        ) + ".json"@)),
        tempfile_words(tag, pid, nanos) == tempfile_words(tag, other, nanos) ==> pid == other,
{
    let name = tempfile_words(tag, pid, nanos);
    let head = "celeste-proton-"@ + tag + "-"@;
    assert(name.subrange(0, head.len() as int) =~= head);
    assert(name =~= (head + decimal(pid) + "-"@) + (decimal(nanos) + ".json"@));
    let second = tempfile_words(tag, other, nanos);
    if name == second {
        let end = "-"@ + decimal(nanos) + ".json"@;
        assert(name =~= head + decimal(pid) + end);
        assert(second =~= head + decimal(other) + end);
        assert(decimal(pid).len() == decimal(other).len());
        assert(decimal(pid) =~= name.subrange(
            head.len() as int,
            (head.len() + decimal(pid).len()) as int,
        ));
        assert(decimal(other) =~= second.subrange(
            head.len() as int,
            (head.len() + decimal(other).len()) as int,
        ));
        law_decimal_stands_for_the_number(pid);
        law_decimal_stands_for_the_number(other);
    }
}

/// Of what a run asks for, and of what it came to, everything is told.
pub proof fn law_actions_and_ends_are_told_whole(
    params: LoginParams,
    a: String,
    b: String,
    id: RemoteId,
    credential: ReusableCredential,
    unsaved: Option<String>,
    rotated: bool,
)
    ensures
        Action::Login(params)@ == (ActionView::Login {
            username: params.username@,
            password: params.password@,
            two_fa: params.two_fa@,
            mailbox: params.mailbox_password@,
        }),
        (Action::SaveSession { uid: a })@ == (ActionView::SaveSession { uid: a@ }),
        (Action::SaveSessionIfRotated { uid: a })@ == (ActionView::SaveSessionIfRotated {
            uid: a@,
        }),
        Action::ReadBlob@ == ActionView::ReadBlob,
        (Action::Store { account: a, blob: b })@ == (ActionView::Store {
            account: a@,
            blob: b@,
        }),
        (Action::Record { name: a })@ == (ActionView::Record { name: a@ }),
        (Action::Load { account: a })@ == (ActionView::Load { account: a@ }),
        (Action::WriteBlob { blob: a })@ == (ActionView::WriteBlob { blob: a@ }),
        Action::ResumeSession@ == ActionView::ResumeSession,
        Finish::Added(id, a, b)@ == FinishView::Added(id, a@, b@),
        Finish::LoggedInAgain(a, b)@ == FinishView::LoggedInAgain(a@, b@),
        Finish::NothingKept@ == FinishView::NothingKept,
        Finish::TakenUp(credential, unsaved)@ == FinishView::TakenUp(
            credential,
            unsaved.deep_view(),
        ),
        Finish::Kept(rotated)@ == FinishView::Kept(rotated),
        Finish::Failed(a)@ == FinishView::Failed(a@),
{
}

} // verus!
