use celeste::domain::ports::{
    cancel_never, is_cancelled, BackendClient, Cancel, RepositoryError,
};
use celeste::domain::remote::RemoteId;
use celeste::domain::sync::{ListFilter, RemoteItem};
use celeste::infrastructure::client_router::ClientRouter;
use celeste::infrastructure::proton::disabled::DisabledProtonClient;
use celeste::services::auth::proton::{settle, Finish};
use std::sync::atomic::Ordering;
use std::sync::{Arc, Mutex};

/// Answers every call with its own name, and writes down what was asked.
struct Named(&'static str, Mutex<Vec<String>>);

impl Named {
    fn note(&self, what: String) -> String {
        self.1.lock().unwrap().push(what.clone());
        format!("{}:{what}", self.0)
    }
}

impl BackendClient for Named {
    fn stat(&self, remote: &str, path: &str, _c: &Cancel) -> Result<Option<RemoteItem>, String> {
        Err(self.note(format!("stat {remote} {path}")))
    }
    fn list(
        &self,
        remote: &str,
        path: &str,
        recursive: bool,
        filter: ListFilter,
        _c: &Cancel,
    ) -> Result<Vec<RemoteItem>, String> {
        Err(self.note(format!("list {remote} {path} {recursive} {filter:?}")))
    }
    fn mkdir(&self, remote: &str, path: &str, _c: &Cancel) -> Result<(), String> {
        Err(self.note(format!("mkdir {remote} {path}")))
    }
    fn delete_file(&self, remote: &str, path: &str, _c: &Cancel) -> Result<(), String> {
        Err(self.note(format!("delete {remote} {path}")))
    }
    fn purge(&self, remote: &str, path: &str, _c: &Cancel) -> Result<(), String> {
        Err(self.note(format!("purge {remote} {path}")))
    }
    fn copy_to_remote(
        &self,
        local: &str,
        remote: &str,
        path: &str,
        _c: &Cancel,
    ) -> Result<(), String> {
        Err(self.note(format!("up {local} {remote} {path}")))
    }
    fn copy_to_local(
        &self,
        local: &str,
        remote: &str,
        path: &str,
        _c: &Cancel,
    ) -> Result<(), String> {
        Err(self.note(format!("down {local} {remote} {path}")))
    }
    fn delete_config(&self, remote: &str) -> Result<(), String> {
        Err(self.note(format!("forget {remote}")))
    }
    fn create_config(&self, payload: String) -> Result<(), String> {
        Err(self.note(format!("create {payload}")))
    }
    fn remote_type(&self, remote: &str) -> Result<Option<String>, String> {
        Ok(Some(self.note(format!("type {remote}"))))
    }
    fn checkpoint_session(&self, remote: &str) {
        self.note(format!("keep {remote}"));
    }
}

fn named(name: &'static str) -> Arc<dyn BackendClient> {
    Arc::new(Named(name, Mutex::new(Vec::new())))
}

fn kind(router: &ClientRouter<dyn BackendClient>, remote: &str) -> String {
    router.remote_type(remote).unwrap().unwrap()
}

#[test]
fn registered_remotes_have_their_own_client() {
    let mut router = ClientRouter::new(named("default"));
    assert_eq!(kind(&router, "a"), "default:type a");
    router.register("a".to_owned(), named("one"));
    router.register("b".to_owned(), named("two"));
    assert_eq!(kind(&router, "a"), "one:type a");
    assert_eq!(kind(&router, "b"), "two:type b");
    assert_eq!(kind(&router, "c"), "default:type c");
    router.register("a".to_owned(), named("three"));
    assert_eq!(kind(&router, "a"), "three:type a");
    assert_eq!(kind(&router, "b"), "two:type b");
}

#[test]
fn remotes_that_are_unregistered_fall_back() {
    let mut router = ClientRouter::new(named("default"));
    router.register("a".to_owned(), named("one"));
    router.register("b".to_owned(), named("two"));
    router.unregister("a");
    router.unregister("nobody");
    assert_eq!(kind(&router, "a"), "default:type a");
    assert_eq!(kind(&router, "b"), "two:type b");
}

#[test]
fn every_call_goes_through() {
    let mut router = ClientRouter::new(named("default"));
    let own = Arc::new(Named("own", Mutex::new(Vec::new())));
    router.register("a".to_owned(), own.clone());
    let never = cancel_never();
    assert_eq!(router.stat("a", "p", &never), Err("own:stat a p".to_owned()));
    assert_eq!(
        router.list("a", "p", true, ListFilter::Dirs, &never),
        Err("own:list a p true Dirs".to_owned())
    );
    assert_eq!(router.mkdir("a", "p", &never), Err("own:mkdir a p".to_owned()));
    assert_eq!(router.delete_file("a", "p", &never), Err("own:delete a p".to_owned()));
    assert_eq!(router.purge("a", "p", &never), Err("own:purge a p".to_owned()));
    assert_eq!(router.copy_to_remote("l", "a", "p", &never), Err("own:up l a p".to_owned()));
    assert_eq!(router.copy_to_local("l", "a", "p", &never), Err("own:down l a p".to_owned()));
    assert_eq!(router.delete_config("a"), Err("own:forget a".to_owned()));
    router.checkpoint_session("a");
    assert_eq!(own.1.lock().unwrap().last(), Some(&"keep a".to_owned()));
    assert_eq!(router.create_config("{}".to_owned()), Err("default:create {}".to_owned()));
}

#[test]
fn a_copy_routes_on_its_own() {
    let mut router = ClientRouter::new(named("default"));
    router.register("a".to_owned(), named("one"));
    let copy = router.clone();
    router.register("a".to_owned(), named("two"));
    router.register("b".to_owned(), named("three"));
    assert_eq!(kind(&copy, "a"), "one:type a");
    assert_eq!(kind(&copy, "b"), "default:type b");
    assert_eq!(kind(&router, "a"), "two:type a");
}

#[test]
fn a_new_session_is_registered() {
    let ends = [
        (Finish::Added(RemoteId(1), "a".to_owned(), "u".to_owned()), Some("u")),
        (Finish::LoggedInAgain("a".to_owned(), "v".to_owned()), Some("v")),
        (Finish::NothingKept, None),
        (Finish::Kept(true), None),
        (Finish::Failed("no".to_owned()), None),
    ];
    for (finish, uid) in ends {
        let mut router = ClientRouter::new(named("default"));
        router.register("b".to_owned(), named("other"));
        settle(&finish, &mut router, named("new"));
        let serves = if uid.is_some() { "new:type a" } else { "default:type a" };
        assert_eq!(kind(&router, "a"), serves);
        assert_eq!(kind(&router, "b"), "other:type b");
        assert_eq!(finish.session_client().as_ref().map(|c| c.uid()), uid);
    }
}

#[test]
fn a_disabled_client_gives_its_reason() {
    let c = DisabledProtonClient::new("log in again".to_owned());
    let never = cancel_never();
    let reason = "log in again".to_owned();
    assert_eq!(c.stat("r", "p", &never), Err(reason.clone()));
    assert_eq!(c.list("r", "p", false, ListFilter::All, &never), Err(reason.clone()));
    assert_eq!(c.mkdir("r", "p", &never), Err(reason.clone()));
    assert_eq!(c.delete_file("r", "p", &never), Err(reason.clone()));
    assert_eq!(c.purge("r", "p", &never), Err(reason.clone()));
    assert_eq!(c.copy_to_remote("l", "r", "p", &never), Err(reason.clone()));
    assert_eq!(c.copy_to_local("l", "r", "p", &never), Err(reason.clone()));
    assert_eq!(c.create_config("{}".to_owned()), Err(reason.clone()));
    assert_eq!(c.delete_config("r"), Err(reason.clone()));
    assert_eq!(c.remote_type("r"), Err(reason));
}

#[test]
fn a_flag_is_raised_once_for_all() {
    let flag = cancel_never();
    let other = flag.clone();
    assert!(!is_cancelled(&flag));
    other.store(true, Ordering::Release);
    assert!(is_cancelled(&flag));
}

#[test]
fn database_errors_have_words() {
    assert_eq!(RepositoryError::NotFound.message(), "not found");
    assert_eq!(RepositoryError::Other("disk full".to_owned()).message(), "disk full");
}
