use celeste::app::handlers::remotes::reauth_result;
use celeste::app::{
    fallback_fonts, is_auth_failure, local_paths_overlap, map_domain_provider_to_add_remote,
    matched_file, CelesteApp, Command, Message, PassVerdict, Screen, FONT_QUERIES,
};
use celeste::domain::backend_events::{BackendEvent, EventTranslator, Operation};
use celeste::domain::ports::{BackendClient, Cancel};
use celeste::domain::remote::{ProviderKind, Remote, RemoteId, SyncPolicy};
use celeste::domain::run_state::RunState;
use celeste::domain::sync::{ListFilter, RemoteItem, SyncDir, SyncDirId};
use celeste::screens::add_remote::{
    Draft, Login, Msg as FormMsg, OAuthProvider, ProviderKind as FormKind, WebDavVendor,
};
use celeste::screens::main_page;
use celeste::screens::remote_page::{Msg, PendingDelete};
use celeste::theme::Mode;
use std::collections::HashMap;
use std::time::Duration;

/// Knows the kind of `drive`, fails on `broken`, and knows no other remote.
struct Kinds;

impl BackendClient for Kinds {
    fn remote_type(&self, remote: &str) -> Result<Option<String>, String> {
        match remote {
            "drive" => Ok(Some("drive".to_owned())),
            "odd" => Ok(Some("odd".to_owned())),
            "broken" => Err("no".to_owned()),
            _ => Ok(None),
        }
    }
    fn stat(&self, _: &str, _: &str, _: &Cancel) -> Result<Option<RemoteItem>, String> {
        unreachable!()
    }
    fn list(
        &self,
        _: &str,
        _: &str,
        _: bool,
        _: ListFilter,
        _: &Cancel,
    ) -> Result<Vec<RemoteItem>, String> {
        unreachable!()
    }
    fn mkdir(&self, _: &str, _: &str, _: &Cancel) -> Result<(), String> {
        unreachable!()
    }
    fn delete_file(&self, _: &str, _: &str, _: &Cancel) -> Result<(), String> {
        unreachable!()
    }
    fn purge(&self, _: &str, _: &str, _: &Cancel) -> Result<(), String> {
        unreachable!()
    }
    fn copy_to_remote(&self, _: &str, _: &str, _: &str, _: &Cancel) -> Result<(), String> {
        unreachable!()
    }
    fn copy_to_local(&self, _: &str, _: &str, _: &str, _: &Cancel) -> Result<(), String> {
        unreachable!()
    }
    fn delete_config(&self, _: &str) -> Result<(), String> {
        unreachable!()
    }
    fn create_config(&self, _: String) -> Result<(), String> {
        unreachable!()
    }
}

fn kind_of(t: &String) -> Option<ProviderKind> {
    match t.as_str() {
        "drive" => Some(ProviderKind::GDrive),
        _ => None,
    }
}

fn send(app: &mut CelesteApp, message: Message<u8>) -> Vec<Command<u8>> {
    let mut commands = app.update(message, &Kinds, &kind_of);
    assert_eq!(commands.pop(), Some(Command::PushTrayStatus));
    commands
}

fn remote(id: i64, name: &str, enabled: bool) -> Remote {
    Remote {
        id: RemoteId(id),
        name: name.to_owned(),
        policy: SyncPolicy { interval: Duration::from_secs(60), enabled },
        provider_kind: None,
    }
}

fn dir(id: i64, remote_id: i64) -> SyncDir {
    SyncDir {
        id: SyncDirId(id),
        remote_id: RemoteId(remote_id),
        local_path: format!("/l{id}"),
        remote_path: format!("r{id}"),
    }
}

fn app() -> CelesteApp {
    let (mut app, commands) = CelesteApp::new::<u8>();
    assert_eq!(commands, vec![Command::LoadRemotes, Command::LoadSystemTheme]);
    assert_eq!(app.title(), "Celeste");
    app.remotes = vec![remote(1, "one", true), remote(2, "two", false), remote(3, "three", true)];
    app.sync_dirs.insert(1, vec![dir(10, 1), dir(11, 1)]);
    app
}

#[test]
fn loaded_remotes_get_their_kind() {
    let mut app = app();
    let mut odd = remote(6, "odd", true);
    odd.provider_kind = Some(ProviderKind::Dropbox);
    let mut broken = remote(7, "broken", false);
    broken.provider_kind = Some(ProviderKind::Dropbox);
    let loaded = vec![remote(4, "drive", true), remote(5, "unknown", false), odd, broken];
    let commands = send(&mut app, Message::RemotesLoaded(loaded));
    let kinds: Vec<Option<ProviderKind>> = app.remotes.iter().map(|r| r.provider_kind).collect();
    assert_eq!(
        kinds,
        vec![Some(ProviderKind::GDrive), None, None, Some(ProviderKind::Dropbox)]
    );
    assert_eq!(
        commands,
        vec![
            Command::EnsureRemote(RemoteId(4), true),
            Command::EnsureRemote(RemoteId(5), false),
            Command::EnsureRemote(RemoteId(6), true),
            Command::EnsureRemote(RemoteId(7), false),
        ]
    );
}

#[test]
fn choosing_a_remote_loads_its_directories() {
    let mut app = app();
    let commands = send(&mut app, Message::Main(main_page::Msg::Selected(RemoteId(2))));
    assert_eq!(app.selected, Some(RemoteId(2)));
    assert_eq!(
        commands,
        vec![Command::LoadSyncDirs(RemoteId(2)), Command::LoadAllSyncDirs]
    );
    assert!(send(&mut app, Message::Remote(Msg::Back)).is_empty());
    assert_eq!(app.selected, None);
}

#[test]
fn refreshing_all_starts_what_is_enabled_and_idle() {
    let mut app = app();
    app.syncing.insert(3);
    let commands = send(&mut app, Message::Main(main_page::Msg::RefreshAll));
    assert_eq!(commands, vec![Command::StartSync(RemoteId(1))]);
}

#[test]
fn refreshing_starts_a_pass_or_queues_one() {
    let mut app = app();
    let commands = send(&mut app, Message::Remote(Msg::RefreshNow(RemoteId(1))));
    assert_eq!(commands, vec![Command::StartSync(RemoteId(1))]);
    assert!(app.refresh_requested_after.is_empty());
    app.syncing.insert(1);
    let commands = send(&mut app, Message::Remote(Msg::RefreshNow(RemoteId(1))));
    let line = "⟳ Refresh queued — starts after the current pass finishes.".to_owned();
    assert_eq!(
        commands,
        vec![
            Command::PushLogLine(SyncDirId(10), line.clone()),
            Command::PushLogLine(SyncDirId(11), line),
        ]
    );
    assert!(app.refresh_requested_after.contains(&1));
    app.syncing.insert(2);
    assert!(send(&mut app, Message::Remote(Msg::RefreshNow(RemoteId(2)))).is_empty());
}

fn fill(app: &mut CelesteApp, messages: Vec<FormMsg>) -> Vec<Command<u8>> {
    let mut last = Vec::new();
    for m in messages {
        last = send(app, Message::AddRemote(m));
    }
    last
}

fn error(app: &CelesteApp) -> Option<&str> {
    app.add_remote_draft.as_ref().unwrap().error.as_deref()
}

#[test]
fn the_form_says_what_is_missing() {
    let mut app = app();
    assert!(send(&mut app, Message::AddRemote(FormMsg::Submit)).is_empty());
    assert!(app.add_remote_draft.is_none());
    send(&mut app, Message::Main(main_page::Msg::AddRemote));
    assert_eq!(app.add_remote_draft, Some(Draft::default()));
    let commands = fill(&mut app, vec![FormMsg::Submit]);
    assert!(commands.is_empty());
    assert_eq!(error(&app), Some("Pick a provider first."));
    fill(&mut app, vec![FormMsg::ProviderChanged(FormKind::ProtonDrive), FormMsg::Submit]);
    assert_eq!(error(&app), Some("Name is required."));
    fill(&mut app, vec![FormMsg::NameChanged(" \t".to_owned()), FormMsg::Submit]);
    assert_eq!(error(&app), Some("Name is required."));
    fill(&mut app, vec![FormMsg::NameChanged("new".to_owned()), FormMsg::Submit]);
    assert_eq!(error(&app), Some("Username is required."));
    let commands = fill(
        &mut app,
        vec![
            FormMsg::ProviderChanged(FormKind::Nextcloud),
            FormMsg::UserChanged("me".to_owned()),
            FormMsg::UrlChanged(" ".to_owned()),
            FormMsg::Submit,
        ],
    );
    assert_eq!(error(&app), Some("URL and username are required."));
    assert!(commands.is_empty() && !app.add_remote_draft.as_ref().unwrap().busy);
    fill(&mut app, vec![FormMsg::Cancel]);
    assert!(app.add_remote_draft.is_none());
}

fn open(app: &mut CelesteApp, kind: FormKind, name: &str) {
    send(app, Message::Main(main_page::Msg::AddRemote));
    fill(
        app,
        vec![
            FormMsg::ProviderChanged(kind),
            FormMsg::NameChanged(name.to_owned()),
            FormMsg::UrlChanged("https://x".to_owned()),
            FormMsg::UserChanged("me".to_owned()),
            FormMsg::PassChanged("pw".to_owned()),
            FormMsg::TotpChanged("123".to_owned()),
            FormMsg::ClientIdChanged(" id ".to_owned()),
            FormMsg::ClientSecretChanged("  ".to_owned()),
        ],
    );
}

#[test]
fn a_complete_form_logs_in() {
    let mut app = app();
    open(&mut app, FormKind::Owncloud, "new");
    assert_eq!(
        fill(&mut app, vec![FormMsg::Submit]),
        vec![Command::LogIn(
            Login::AddWebDav {
                name: "new".to_owned(),
                url: "https://x".to_owned(),
                user: "me".to_owned(),
                pass: "pw".to_owned(),
                vendor: WebDavVendor::Owncloud,
            },
            None,
        )]
    );
    let draft = app.add_remote_draft.as_ref().unwrap();
    assert!(draft.busy && draft.error.is_none());
    open(&mut app, FormKind::ProtonDrive, "new");
    assert_eq!(
        fill(&mut app, vec![FormMsg::Submit]),
        vec![Command::LogIn(
            Login::AddProton {
                name: "new".to_owned(),
                user: "me".to_owned(),
                pass: "pw".to_owned(),
                totp: "123".to_owned(),
            },
            None,
        )]
    );
    for (kind, provider) in [
        (FormKind::Dropbox, OAuthProvider::Dropbox),
        (FormKind::GDrive, OAuthProvider::GDrive),
        (FormKind::PCloud, OAuthProvider::PCloud),
    ] {
        open(&mut app, kind, "new");
        assert_eq!(
            fill(&mut app, vec![FormMsg::Submit]),
            vec![Command::LogIn(
                Login::AddOAuth {
                    name: "new".to_owned(),
                    provider,
                    client_id: Some("id".to_owned()),
                    client_secret: None,
                },
                None,
            )]
        );
    }
}

#[test]
fn logging_in_again_is_for_the_remote_that_is_there() {
    let mut app = app();
    app.remotes[1].provider_kind = Some(ProviderKind::ProtonDrive);
    app.remotes[2].provider_kind = Some(ProviderKind::PCloud);
    send(&mut app, Message::Remote(Msg::Reauthenticate(RemoteId(2), "two".to_owned())));
    let draft = app.add_remote_draft.clone().unwrap();
    assert_eq!(draft.name, "two");
    assert_eq!(draft.provider, Some(FormKind::ProtonDrive));
    assert!(draft.reauth);
    let commands =
        fill(&mut app, vec![FormMsg::UserChanged("me".to_owned()), FormMsg::Submit]);
    assert!(matches!(
        &commands[..],
        [Command::LogIn(Login::ReauthProton { .. }, Some(RemoteId(2)))]
    ));
    send(&mut app, Message::Remote(Msg::Reauthenticate(RemoteId(3), "three".to_owned())));
    let commands = fill(&mut app, vec![FormMsg::Submit]);
    assert!(matches!(
        &commands[..],
        [Command::LogIn(Login::ReauthOAuth { .. }, Some(RemoteId(3)))]
    ));
    send(&mut app, Message::Remote(Msg::Reauthenticate(RemoteId(8), "gone".to_owned())));
    assert_eq!(app.add_remote_draft.as_ref().unwrap().provider, None);
}

#[test]
fn a_login_again_needs_a_remote() {
    assert_eq!(reauth_result(Ok(()), Some(RemoteId(1))), Ok(RemoteId(1)));
    assert_eq!(
        reauth_result(Ok(()), None),
        Err("Remote not found after reauth.".to_owned())
    );
    assert_eq!(reauth_result(Err("no".to_owned()), Some(RemoteId(1))), Err("no".to_owned()));
    assert_eq!(reauth_result(Err("no".to_owned()), None), Err("no".to_owned()));
}

#[test]
fn a_login_enables_the_remote() {
    let mut app = app();
    open(&mut app, FormKind::ProtonDrive, "two");
    let commands = send(&mut app, Message::AddRemoteResult(Ok(RemoteId(2))));
    let policy = SyncPolicy { interval: Duration::from_secs(60), enabled: true };
    assert_eq!(
        commands,
        vec![
            Command::ReauthComplete(RemoteId(2)),
            Command::SetRemoteEnabled(RemoteId(2), true),
            Command::SetPolicy(RemoteId(2), policy),
            Command::LoadRemotes,
        ]
    );
    assert!(app.add_remote_draft.is_none() && app.remotes[1].policy.enabled);
    let commands = send(&mut app, Message::AddRemoteResult(Ok(RemoteId(1))));
    assert_eq!(commands.len(), 3);
    let commands = send(&mut app, Message::AddRemoteResult(Ok(RemoteId(77))));
    assert_eq!(commands.len(), 3);
}

#[test]
fn a_login_that_fails_says_why() {
    let mut app = app();
    open(&mut app, FormKind::ProtonDrive, "two");
    fill(&mut app, vec![FormMsg::Submit]);
    assert!(app.add_remote_draft.as_ref().unwrap().busy);
    send(&mut app, Message::AddRemoteResult(Err("bad password".to_owned())));
    assert_eq!(error(&app), Some("bad password"));
    assert!(!app.add_remote_draft.as_ref().unwrap().busy);
    fill(&mut app, vec![FormMsg::Cancel]);
    assert!(send(&mut app, Message::AddRemoteResult(Err("late".to_owned()))).is_empty());
    assert!(app.add_remote_draft.is_none());
}

#[test]
fn a_remote_is_deleted_after_a_yes() {
    let mut app = app();
    app.selected = Some(RemoteId(1));
    app.syncing.insert(1);
    app.last_sync_at.insert(1, 5);
    app.sync_dir_drafts.insert(1, ("a".to_owned(), "b".to_owned()));
    let ask = Message::Remote(Msg::RequestDeleteRemote(RemoteId(1), "one".to_owned()));
    assert!(send(&mut app, ask).is_empty());
    assert_eq!(app.remotes.len(), 3);
    assert_eq!(
        app.pending_delete,
        Some(PendingDelete::Remote(RemoteId(1), "one".to_owned()))
    );
    let commands = send(&mut app, Message::Remote(Msg::ConfirmDelete));
    assert_eq!(
        commands,
        vec![
            Command::RemoveRemote(RemoteId(1)),
            Command::UnregisterClient("one".to_owned()),
            Command::DeleteRemote("one".to_owned()),
        ]
    );
    assert_eq!((app.selected, app.pending_delete.is_none()), (None, true));
    let ids: Vec<i64> = app.remotes.iter().map(|r| r.id.0).collect();
    assert_eq!(ids, vec![2, 3]);
    assert!(app.syncing.is_empty() && app.sync_dirs.is_empty());
    assert!(app.last_sync_at.is_empty() && app.sync_dir_drafts.is_empty());
    assert!(send(&mut app, Message::Remote(Msg::ConfirmDelete)).is_empty());
}

#[test]
fn a_no_deletes_nothing() {
    let mut app = app();
    let ask = Message::Remote(Msg::RequestDeleteSyncDir("/l".to_owned(), "r".to_owned()));
    send(&mut app, ask);
    assert!(send(&mut app, Message::Remote(Msg::CancelDelete)).is_empty());
    assert!(app.pending_delete.is_none());
    assert!(send(&mut app, Message::Remote(Msg::ConfirmDelete)).is_empty());
    assert_eq!(app.remotes.len(), 3);
}

#[test]
fn a_link_is_deleted_after_a_yes() {
    let mut app = app();
    let ask = Message::Remote(Msg::RequestDeleteSyncDir("/l".to_owned(), "r".to_owned()));
    send(&mut app, ask);
    let commands = send(&mut app, Message::Remote(Msg::ConfirmDelete));
    assert_eq!(commands, vec![Command::DeleteSyncDir("/l".to_owned(), "r".to_owned())]);
}

#[test]
fn other_messages_are_handed_on() {
    let mut app = app();
    assert_eq!(
        send(&mut app, Message::Remote(Msg::Settings(7))),
        vec![Command::Elsewhere(Message::Settings(7))]
    );
    assert!(send(&mut app, Message::PolicySaved).is_empty());
    for make in [
        || Message::Tick,
        || Message::Quit,
        || Message::Settings(1),
        || Message::SystemThemeChanged(Mode::Dark),
        || Message::SyncFinished(RemoteId(1), PassVerdict::Clean),
        || Message::Remote(Msg::LogEditorAction(SyncDirId(1), 3)),
        || Message::Remote(Msg::ToggleExclusions(SyncDirId(1))),
    ] {
        assert_eq!(send(&mut app, make()), vec![Command::Elsewhere(make())]);
    }
}

#[test]
fn the_form_comes_before_the_page_and_the_page_before_the_list() {
    let mut app = app();
    let mut states = HashMap::new();
    states.insert(11, RunState::Warning);
    assert_eq!(app.view_screen(&states, None, false), Screen::Main);
    assert_eq!(app.shown_remote(), None);
    app.selected = Some(RemoteId(1));
    app.sync_dir_drafts.insert(1, ("dl".to_owned(), "dr".to_owned()));
    assert_eq!(app.shown_remote(), Some(RemoteId(1)));
    match app.view_screen(&states, Some((Duration::from_secs(5), false)), false) {
        Screen::Remote(page) => {
            assert_eq!((page.remote, page.name.as_str()), (RemoteId(1), "one"));
            assert_eq!(page.countdown.label, "next sync in 5s");
            assert_eq!(page.cards.len(), 2);
            assert_eq!(page.cards[1].icon_state, Some(RunState::Warning));
            assert_eq!((page.draft_local.as_str(), page.draft_remote.as_str()), ("dl", "dr"));
        }
        other => panic!("{other:?}"),
    }
    app.selected = Some(RemoteId(99));
    assert_eq!(app.view_screen(&states, None, false), Screen::Main);
    app.selected = Some(RemoteId(1));
    send(&mut app, Message::Main(main_page::Msg::AddRemote));
    assert_eq!(app.view_screen(&states, None, false), Screen::AddRemote);
    assert_eq!(app.shown_remote(), None);
}

/// Takes `token` for a dead session.
struct Tokens;

impl EventTranslator for Tokens {
    fn classify(&self, _op: Operation, msg: &str) -> BackendEvent {
        if msg.contains("token") {
            BackendEvent::AuthExpired
        } else {
            BackendEvent::NotFound
        }
    }
}

#[test]
fn a_dead_session_is_noticed_at_any_backend() {
    assert!(is_auth_failure(&Tokens, "bad token"));
    assert!(is_auth_failure(&Tokens, "Code=401"));
    assert!(!is_auth_failure(&Tokens, "dial tcp"));
}

#[test]
fn overlapping_paths_are_noticed() {
    assert!(local_paths_overlap("/", "/home"));
    assert!(local_paths_overlap("/home/", "/home/u"));
    assert!(local_paths_overlap("/a", "/a"));
    assert!(local_paths_overlap("/a", "/a/b"));
    assert!(local_paths_overlap("/a/b/c", "/a"));
    assert!(!local_paths_overlap("/a", "/ab"));
    assert!(!local_paths_overlap("/a/b", "/a/c"));
}

#[test]
fn a_slash_at_the_end_does_not_hide_an_overlap() {
    assert!(local_paths_overlap("/", "/home"));
    assert!(local_paths_overlap("/home", "/"));
    assert!(local_paths_overlap("/", "/"));
    assert!(local_paths_overlap("/home/", "/home/u"));
    assert!(local_paths_overlap("/home/u", "/home/"));
    assert!(local_paths_overlap("/home", "/home/"));
    assert!(!local_paths_overlap("/home/", "/homes"));
    assert!(!local_paths_overlap("/a/", "/b/"));
}

#[test]
fn every_provider_is_offered() {
    for (p, f) in [
        (ProviderKind::ProtonDrive, FormKind::ProtonDrive),
        (ProviderKind::GDrive, FormKind::GDrive),
        (ProviderKind::Dropbox, FormKind::Dropbox),
        (ProviderKind::PCloud, FormKind::PCloud),
        (ProviderKind::WebDav, FormKind::WebDav),
        (ProviderKind::Nextcloud, FormKind::Nextcloud),
        (ProviderKind::Owncloud, FormKind::Owncloud),
    ] {
        assert_eq!(map_domain_provider_to_add_remote(p), Some(f));
    }
}

#[test]
fn fonts_come_in_the_order_of_their_queries() {
    let read = |q: &'static str| {
        if q == "Noto Sans" || q == "emoji" {
            Some(q.as_bytes().to_vec())
        } else {
            None
        }
    };
    assert_eq!(
        fallback_fonts(&read),
        vec![b"Noto Sans".to_vec(), b"emoji".to_vec()]
    );
    assert_eq!(FONT_QUERIES.len(), 6);
}

#[test]
fn a_font_file_is_named_by_clean_output() {
    let of = |ok: bool, out: Option<&str>| matched_file(ok, &out.map(|s| s.to_owned()));
    assert_eq!(of(true, Some(" /f.ttf\n")), Some("/f.ttf".to_owned()));
    assert_eq!(of(true, Some("\n")), None);
    assert_eq!(of(false, Some("/f.ttf")), None);
    assert_eq!(of(true, None), None);
}

#[test]
fn a_form_that_is_closed_leaves_no_trace() {
    let mut app = app();
    app.selected = Some(RemoteId(1));
    send(&mut app, Message::Remote(Msg::Reauthenticate(RemoteId(1), "one".to_owned())));
    assert!(fill(&mut app, vec![FormMsg::Cancel]).is_empty());
    assert!(app.add_remote_draft.is_none());
    assert_eq!((app.selected, app.remotes.len()), (Some(RemoteId(1)), 3));
}
