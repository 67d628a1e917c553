use celeste::domain::ports::{Repository, RepositoryError};
use celeste::domain::remote::{Remote, RemoteId, SyncPolicy};
use celeste::domain::sync::{
    SyncDir, SyncDirExclusion, SyncDirExclusionId, SyncDirId, SyncItem, SyncItemId,
};
use celeste::go::proton::{LoginParams, ReusableCredential};
use celeste::infrastructure::proton::client::NativeProtonClient;
use celeste::services::auth::proton::{
    add_proton_drive_remote, forget_session, persist_session_if_rotated, proton_account,
    reauth_proton_drive_remote, record_remote, resume_session_from_keyring, tempfile_name, Action,
    Event, Finish, Step, WriteFault,
};
use std::sync::Mutex;
use std::time::Duration;

fn credential(uid: &str) -> ReusableCredential {
    ReusableCredential {
        uid: uid.to_owned(),
        access_token: "a".to_owned(),
        refresh_token: "r".to_owned(),
        salted_key_pass: "s".to_owned(),
    }
}

/// An outside where everything works.
fn fine(action: &Action) -> Event {
    match action {
        Action::Login(_) => Event::LoggedIn(Ok(credential("u1"))),
        Action::SaveSession { .. } => Event::Saved(Ok(())),
        Action::SaveSessionIfRotated { .. } => Event::Rotated(Ok(true)),
        Action::ReadBlob => Event::BlobRead(Ok("blob".to_owned())),
        Action::Store { .. } => Event::Stored(Ok(())),
        Action::Record { .. } => Event::Recorded(Ok(RemoteId(9))),
        Action::Load { .. } => Event::Loaded(Ok(Some("old blob".to_owned()))),
        Action::WriteBlob { .. } => Event::BlobWritten(Ok(())),
        Action::ResumeSession => Event::Resumed(Ok(credential("u2"))),
    }
}

fn drive(step: Step, world: impl Fn(&Action) -> Event) -> (Finish, Vec<Action>) {
    let mut step = step;
    let mut asked = Vec::new();
    loop {
        match step {
            Step::Done(finish) => return (finish, asked),
            Step::Act(flow, action) => {
                let event = world(&action);
                asked.push(action);
                step = flow.resume(event);
            }
        }
    }
}

fn add() -> Step {
    add_proton_drive_remote("work", "me", "pw", "123456")
}

#[test]
fn adding_logs_in_keeps_the_session_and_records() {
    let (finish, asked) = drive(add(), fine);
    assert_eq!(finish, Finish::Added(RemoteId(9), "work".to_owned(), "u1".to_owned()));
    assert_eq!(
        asked,
        vec![
            Action::Login(LoginParams {
                username: "me".to_owned(),
                password: "pw".to_owned(),
                mailbox_password: String::new(),
                two_fa: "123456".to_owned(),
            }),
            Action::SaveSession { uid: "u1".to_owned() },
            Action::ReadBlob,
            Action::Store {
                account: "proton-session-work".to_owned(),
                blob: "blob".to_owned(),
            },
            Action::Record { name: "work".to_owned() },
        ]
    );
}

#[test]
fn logging_in_again_leaves_the_database_alone() {
    let (finish, asked) = drive(reauth_proton_drive_remote("work", "me", "pw", ""), fine);
    assert_eq!(finish, Finish::LoggedInAgain("work".to_owned(), "u1".to_owned()));
    assert_eq!(asked.len(), 4);
    assert!(!asked.iter().any(|a| matches!(a, Action::Record { .. })));
}

#[test]
fn every_failure_of_adding_is_told() {
    let fails = |at: usize, event: fn() -> Event| {
        let count = Mutex::new(0);
        let world = move |action: &Action| {
            let mut n = count.lock().unwrap();
            *n += 1;
            if *n == at {
                event()
            } else {
                fine(action)
            }
        };
        drive(add(), world)
    };
    let e = || "why".to_owned();
    let (finish, asked) = fails(1, || Event::LoggedIn(Err("why".to_owned())));
    assert_eq!((finish, asked.len()), (Finish::Failed(e()), 1));
    let (finish, asked) = fails(2, || Event::Saved(Err("why".to_owned())));
    assert_eq!((finish, asked.len()), (Finish::Failed(e()), 2));
    let (finish, asked) = fails(3, || Event::BlobRead(Err("why".to_owned())));
    assert_eq!(
        (finish, asked.len()),
        (Finish::Failed("reading proton session tempfile: why".to_owned()), 3)
    );
    let (finish, asked) = fails(4, || Event::Stored(Err("why".to_owned())));
    assert_eq!((finish, asked.len()), (Finish::Failed(e()), 4));
    let (finish, asked) = fails(5, || Event::Recorded(Err("why".to_owned())));
    assert_eq!((finish, asked.len()), (Finish::Failed(e()), 5));
}

#[test]
fn a_kept_session_is_taken_up_and_its_tokens_kept() {
    let (finish, asked) = drive(resume_session_from_keyring("work"), fine);
    assert_eq!(finish, Finish::TakenUp(credential("u2"), None));
    assert_eq!(
        asked,
        vec![
            Action::Load { account: "proton-session-work".to_owned() },
            Action::WriteBlob { blob: "old blob".to_owned() },
            Action::ResumeSession,
            Action::SaveSessionIfRotated { uid: "u2".to_owned() },
            Action::ReadBlob,
            Action::Store {
                account: "proton-session-work".to_owned(),
                blob: "blob".to_owned(),
            },
        ]
    );
}

#[test]
fn no_session_is_no_failure() {
    let (finish, asked) = drive(resume_session_from_keyring("work"), |a: &Action| match a {
        Action::Load { .. } => Event::Loaded(Ok(None)),
        other => fine(other),
    });
    assert_eq!((finish, asked.len()), (Finish::NothingKept, 1));
}

#[test]
fn a_session_that_was_taken_up_survives_a_fault_of_the_keyring() {
    let (finish, _) = drive(resume_session_from_keyring("work"), |a: &Action| match a {
        Action::Store { .. } => Event::Stored(Err("locked".to_owned())),
        other => fine(other),
    });
    assert_eq!(finish, Finish::TakenUp(credential("u2"), Some("locked".to_owned())));
    let (finish, _) = drive(resume_session_from_keyring("work"), |a: &Action| match a {
        Action::SaveSessionIfRotated { .. } => Event::Rotated(Err("gone".to_owned())),
        other => fine(other),
    });
    assert_eq!(finish, Finish::TakenUp(credential("u2"), Some("gone".to_owned())));
}

#[test]
fn what_goes_wrong_before_that_fails() {
    let run = |bad: fn(&Action) -> Option<Event>| {
        drive(resume_session_from_keyring("work"), move |a: &Action| {
            bad(a).unwrap_or_else(|| fine(a))
        })
        .0
    };
    assert_eq!(
        run(|a| match a {
            Action::Load { .. } => Some(Event::Loaded(Err("locked".to_owned()))),
            _ => None,
        }),
        Finish::Failed("locked".to_owned())
    );
    assert_eq!(
        run(|a| match a {
            Action::WriteBlob { .. } => {
                Some(Event::BlobWritten(Err(WriteFault::Creating("denied".to_owned()))))
            }
            _ => None,
        }),
        Finish::Failed("creating proton session tempfile: denied".to_owned())
    );
    assert_eq!(
        run(|a| match a {
            Action::WriteBlob { .. } => {
                Some(Event::BlobWritten(Err(WriteFault::Writing("full".to_owned()))))
            }
            _ => None,
        }),
        Finish::Failed("writing proton session tempfile: full".to_owned())
    );
    assert_eq!(
        run(|a| match a {
            Action::ResumeSession => Some(Event::Resumed(Err("revoked".to_owned()))),
            _ => None,
        }),
        Finish::Failed("revoked".to_owned())
    );
}

#[test]
fn rotated_tokens_are_kept_and_others_are_left() {
    let (finish, asked) = drive(persist_session_if_rotated("work", "u1"), fine);
    assert_eq!((finish, asked.len()), (Finish::Kept(true), 3));
    let (finish, asked) = drive(
        NativeProtonClient::new("u1".to_owned()).checkpoint_session("work"),
        |_a: &Action| Event::Rotated(Ok(false)),
    );
    assert_eq!(finish, Finish::Kept(false));
    assert_eq!(asked, vec![Action::SaveSessionIfRotated { uid: "u1".to_owned() }]);
    let (finish, _) = drive(persist_session_if_rotated("work", "u1"), |a: &Action| match a {
        Action::Store { .. } => Event::Stored(Err("locked".to_owned())),
        other => fine(other),
    });
    assert_eq!(finish, Finish::Failed("locked".to_owned()));
}

#[test]
fn the_keyring_goes_by_the_name() {
    assert_eq!(proton_account("work"), "proton-session-work");
    assert_eq!(forget_session("a b"), "proton-session-a b");
    assert_ne!(proton_account("a"), proton_account("b"));
}

#[test]
fn credential_files_are_named_by_process_and_time() {
    assert_eq!(tempfile_name("save", 42, 1_000), "celeste-proton-save-42-1000.json");
    assert_eq!(tempfile_name("resume", 0, 0), "celeste-proton-resume-0-0.json");
}

/// A database that writes down what it is asked.
struct Notes(Result<RemoteId, RepositoryError>, Mutex<Vec<String>>);

impl Repository for Notes {
    fn insert_native_proton_remote(
        &self,
        name: String,
        session_path: String,
    ) -> Result<RemoteId, RepositoryError> {
        self.1.lock().unwrap().push(format!("insert {name} {session_path}"));
        self.0.clone()
    }
    fn set_policy(&self, id: RemoteId, policy: SyncPolicy) -> Result<(), RepositoryError> {
        let line = format!("policy {} {:?} {}", id.0, policy.interval, policy.enabled);
        self.1.lock().unwrap().push(line);
        Err(RepositoryError::NotFound)
    }
    fn list_remotes(&self) -> Result<Vec<Remote>, RepositoryError> {
        unreachable!()
    }
    fn find_remote(&self, _: RemoteId) -> Result<Option<Remote>, RepositoryError> {
        unreachable!()
    }
    fn find_remote_by_name(&self, _: &str) -> Result<Option<Remote>, RepositoryError> {
        unreachable!()
    }
    fn insert_remote(&self, _: String) -> Result<RemoteId, RepositoryError> {
        unreachable!()
    }
    fn delete_remote(&self, _: RemoteId) -> Result<(), RepositoryError> {
        unreachable!()
    }
    fn cascade_delete_remote(&self, _: RemoteId) -> Result<(), RepositoryError> {
        unreachable!()
    }
    fn cascade_delete_sync_dir(&self, _: &str, _: &str) -> Result<(), RepositoryError> {
        unreachable!()
    }
    fn list_sync_dirs(&self, _: RemoteId) -> Result<Vec<SyncDir>, RepositoryError> {
        unreachable!()
    }
    fn list_all_sync_dirs(&self) -> Result<Vec<SyncDir>, RepositoryError> {
        unreachable!()
    }
    fn sync_dir_exists(&self, _: &str, _: &str) -> Result<bool, RepositoryError> {
        unreachable!()
    }
    fn insert_sync_dir(&self, _: RemoteId, _: String, _: String) -> Result<(), RepositoryError> {
        unreachable!()
    }
    fn list_sync_items(&self, _: SyncDirId) -> Result<Vec<SyncItem>, RepositoryError> {
        unreachable!()
    }
    fn find_sync_item_by_paths(
        &self,
        _: SyncDirId,
        _: &str,
        _: &str,
    ) -> Result<Option<SyncItem>, RepositoryError> {
        unreachable!()
    }
    fn find_sync_item_by_local(
        &self,
        _: SyncDirId,
        _: &str,
    ) -> Result<Option<SyncItem>, RepositoryError> {
        unreachable!()
    }
    fn find_sync_item_by_remote(
        &self,
        _: SyncDirId,
        _: &str,
    ) -> Result<Option<SyncItem>, RepositoryError> {
        unreachable!()
    }
    fn delete_sync_item(&self, _: SyncItemId) -> Result<(), RepositoryError> {
        unreachable!()
    }
    fn insert_sync_item(
        &self,
        _: SyncDirId,
        _: String,
        _: String,
        _: i64,
        _: i64,
    ) -> Result<(), RepositoryError> {
        unreachable!()
    }
    fn update_sync_item_timestamps(
        &self,
        _: SyncItemId,
        _: i64,
        _: i64,
    ) -> Result<(), RepositoryError> {
        unreachable!()
    }
    fn delete_sync_item_by_paths(
        &self,
        _: SyncDirId,
        _: &str,
        _: &str,
    ) -> Result<(), RepositoryError> {
        unreachable!()
    }
    fn delete_sync_items_with_local_prefix(
        &self,
        _: SyncDirId,
        _: &str,
    ) -> Result<(), RepositoryError> {
        unreachable!()
    }
    fn list_exclusions(&self, _: SyncDirId) -> Result<Vec<SyncDirExclusion>, RepositoryError> {
        unreachable!()
    }
    fn insert_exclusion(&self, _: SyncDirId, _: String) -> Result<(), RepositoryError> {
        unreachable!()
    }
    fn delete_exclusion(&self, _: SyncDirExclusionId) -> Result<(), RepositoryError> {
        unreachable!()
    }
}

#[test]
fn a_new_remote_is_recorded_with_its_interval() {
    let notes = Notes(Ok(RemoteId(5)), Mutex::new(Vec::new()));
    let repo: &dyn Repository = &notes;
    assert_eq!(record_remote(repo, "work", Duration::from_secs(300)), Ok(RemoteId(5)));
    assert_eq!(
        *notes.1.lock().unwrap(),
        vec!["insert work keyring".to_owned(), "policy 5 300s true".to_owned()]
    );
    let full = Notes(Err(RepositoryError::Other("disk full".to_owned())), Mutex::new(Vec::new()));
    assert_eq!(
        record_remote(&full, "work", Duration::from_secs(300)),
        Err("disk full".to_owned())
    );
    assert_eq!(full.1.lock().unwrap().len(), 1);
}
