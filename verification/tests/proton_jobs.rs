use celeste::domain::sync::{ListFilter, RemoteItem};
use celeste::go::proton::Entry;
use celeste::go::Shim;
use celeste::infrastructure::proton::client::NativeProtonClient;
use celeste::infrastructure::proton::job::{
    describe, entry_to_remote_item, find_link, list_items, Answer, Call, Reply, Step, FIRST_SECOND,
    LAST_SECOND,
};

fn client() -> NativeProtonClient {
    NativeProtonClient::new("u1".to_owned())
}

fn entry(link: &str, name: &str, is_dir: bool, time: i64) -> Entry {
    Entry {
        link_id: link.to_owned(),
        parent_link_id: String::new(),
        name: name.to_owned(),
        is_dir,
        size: 1,
        mod_time_unix: time,
        mime_type: String::new(),
    }
}

/// A drive: `Foo/bar.txt` and `Foo/sub/`, under the root `r`.
fn drive(call: &Call) -> Reply {
    match call {
        Call::RootLinkId => Reply::Link(Ok("r".to_owned())),
        Call::ListDirectory(link) => Reply::Entries(match link.as_str() {
            "r" => Ok(vec![entry("f", "Foo", true, 5), entry("f2", "Foo", true, 6)]),
            "f" => Ok(vec![entry("b", "bar.txt", false, 7), entry("s", "sub", true, 8)]),
            "s" => Ok(Vec::new()),
            _ => Err("no such link".to_owned()),
        }),
        Call::ListRecursive(_) => Reply::Entries(Ok(vec![
            entry("f", "Foo", true, 5),
            entry("b", "Foo/bar.txt", false, 7),
        ])),
        Call::Stat(link) => Reply::Entry(match link.as_str() {
            "r" => Ok(Some(entry("r", "", true, 1))),
            "b" => Ok(Some(entry("b", "bar.txt", false, 7))),
            "s" => Ok(None),
            _ => Err("no such link".to_owned()),
        }),
        Call::CreateFolder { name, .. } => Reply::Link(match name.as_str() {
            "old" => Err("Code=2500".to_owned()),
            "bad" => Err("Code=1".to_owned()),
            _ => Ok("new".to_owned()),
        }),
        Call::UploadFile { .. } => Reply::Link(Err("already exists".to_owned())),
        Call::DownloadFile { .. } => Reply::Done(Ok(())),
        Call::TrashLink(_) => Reply::Done(Err("busy".to_owned())),
    }
}

/// Runs a job on the drive; also gives the calls that it made.
fn run(step: Step, cancelled: bool) -> (Answer, Vec<Call>) {
    let mut step = step;
    let mut calls = Vec::new();
    loop {
        match step {
            Step::Done(answer) => return (answer, calls),
            Step::Call(job, call) => {
                let reply = drive(&call);
                calls.push(call);
                step = job.resume(reply, cancelled);
            }
        }
    }
}

fn item(is_dir: bool, path: &str, name: &str, mod_time: i64) -> RemoteItem {
    RemoteItem { is_dir, path: path.to_owned(), name: name.to_owned(), mod_time }
}

#[test]
fn stat_walks_from_the_root() {
    let (answer, calls) = run(client().stat("/Foo/bar.txt/"), false);
    assert_eq!(answer, Answer::Item(Ok(Some(item(false, "Foo/bar.txt", "bar.txt", 7)))));
    assert_eq!(
        calls,
        vec![
            Call::RootLinkId,
            Call::ListDirectory("r".to_owned()),
            Call::ListDirectory("f".to_owned()),
            Call::Stat("b".to_owned()),
        ]
    );
}

#[test]
fn stat_of_what_is_not_there_is_nothing() {
    assert_eq!(run(client().stat("Foo/none"), false).0, Answer::Item(Ok(None)));
    assert_eq!(run(client().stat("Foo/sub"), false).0, Answer::Item(Ok(None)));
    assert_eq!(run(client().stat("Foo//sub"), false).0, Answer::Item(Ok(None)));
}

#[test]
fn stat_of_the_root_is_named_by_its_path() {
    let (answer, calls) = run(client().stat("//"), false);
    assert_eq!(answer, Answer::Item(Ok(Some(item(true, "", "", 1)))));
    assert_eq!(calls, vec![Call::RootLinkId, Call::Stat("r".to_owned())]);
}

#[test]
fn listings_are_filtered_and_named_from_the_root() {
    let list = |path: &str, recursive: bool, filter: ListFilter| {
        run(client().list(path, recursive, filter), false).0
    };
    assert_eq!(
        list("Foo", false, ListFilter::All),
        Answer::Items(Ok(vec![
            item(false, "Foo/bar.txt", "bar.txt", 7),
            item(true, "Foo/sub", "sub", 8),
        ]))
    );
    assert_eq!(
        list("Foo", false, ListFilter::Dirs),
        Answer::Items(Ok(vec![item(true, "Foo/sub", "sub", 8)]))
    );
    assert_eq!(
        list("", true, ListFilter::Files),
        Answer::Items(Ok(vec![item(false, "Foo/bar.txt", "bar.txt", 7)]))
    );
    assert_eq!(list("nowhere", false, ListFilter::All), Answer::Items(Ok(Vec::new())));
}

#[test]
fn a_folder_that_exists_counts_as_created() {
    let (made, calls) = run(client().mkdir("Foo/new"), false);
    assert_eq!(made, Answer::Unit(Ok(())));
    assert_eq!(
        calls.last(),
        Some(&Call::CreateFolder { parent: "f".to_owned(), name: "new".to_owned() })
    );
    assert_eq!(run(client().mkdir("old"), false).0, Answer::Unit(Ok(())));
    assert_eq!(run(client().mkdir("bad"), false).0, Answer::Unit(Err("Code=1".to_owned())));
    assert_eq!(
        run(client().mkdir("/"), false).0,
        Answer::Unit(Err("cannot operate on root itself".to_owned()))
    );
    assert_eq!(
        run(client().mkdir("none/new"), false).0,
        Answer::Unit(Err("parent path 'none' not found".to_owned()))
    );
}

#[test]
fn uploads_fail_where_the_name_is_taken() {
    let (answer, calls) = run(client().copy_to_remote("/tmp/x", "Foo/x"), false);
    assert_eq!(answer, Answer::Unit(Err("already exists".to_owned())));
    assert_eq!(
        calls.last(),
        Some(&Call::UploadFile {
            parent: "f".to_owned(),
            name: "x".to_owned(),
            local: "/tmp/x".to_owned(),
        })
    );
    assert_eq!(
        run(client().copy_to_remote("/tmp/x", ""), false).0,
        Answer::Unit(Err("cannot operate on root itself".to_owned()))
    );
}

#[test]
fn deletions_and_downloads_need_something_there() {
    let (deleted, calls) = run(client().delete_file("Foo/bar.txt"), false);
    assert_eq!(deleted, Answer::Unit(Err("busy".to_owned())));
    assert_eq!(calls.last(), Some(&Call::TrashLink("b".to_owned())));
    assert_eq!(
        run(client().purge("/Foo/x/"), false).0,
        Answer::Unit(Err("path '/Foo/x/' not found on remote".to_owned()))
    );
    assert_eq!(
        run(client().copy_to_local("/tmp/x", "Foo/bar.txt"), false).0,
        Answer::Unit(Ok(()))
    );
    assert_eq!(
        run(client().copy_to_local("/tmp/x", "no"), false).0,
        Answer::Unit(Err("path 'no' not found on remote".to_owned()))
    );
}

#[test]
fn a_request_to_stop_is_heeded_before_each_listing() {
    let (answer, calls) = run(client().stat("Foo/bar.txt"), true);
    assert_eq!(answer, Answer::Item(Err("cancelled".to_owned())));
    assert_eq!(calls, vec![Call::RootLinkId]);
    let (root, _) = run(client().stat(""), true);
    assert_eq!(root, Answer::Item(Ok(Some(item(true, "", "", 1)))));
}

#[test]
fn the_answer_of_a_call_that_fails_is_its_error() {
    match client().stat("Foo") {
        Step::Call(job, Call::RootLinkId) => assert_eq!(
            job.resume(Reply::Link(Err("no session".to_owned())), false),
            Step::Done(Answer::Item(Err("no session".to_owned())))
        ),
        _ => panic!("the root comes first"),
    }
    match client().list("Foo", false, ListFilter::All) {
        Step::Call(job, _) => match job.resume(Reply::Link(Ok("lost".to_owned())), false) {
            Step::Call(job, call) => assert_eq!(
                job.resume(drive(&call), false),
                Step::Done(Answer::Items(Err("no such link".to_owned())))
            ),
            _ => panic!("the folder is listed next"),
        },
        _ => panic!("the root comes first"),
    }
}

#[test]
fn entries_become_items() {
    let e = entry("l", "a/b.txt", false, 9);
    assert_eq!(entry_to_remote_item(&e, "top", true), item(false, "top/a/b.txt", "b.txt", 9));
    assert_eq!(entry_to_remote_item(&e, "", false), item(false, "a/b.txt", "a/b.txt", 9));
    assert_eq!(describe(&entry("l", "", true, 2), "x/y/"), item(true, "x/y", "y", 2));
    let two = vec![entry("1", "n", false, 0), entry("2", "n", false, 0)];
    assert_eq!(find_link(&two, "n"), Some("1".to_owned()));
    assert_eq!(find_link(&two, "m"), None);
    assert!(list_items(&two, "", false, ListFilter::Dirs).is_empty());
}

#[test]
fn times_that_no_date_holds_are_the_epoch() {
    let kept = |secs: i64| describe(&entry("l", "n", false, secs), "n").mod_time;
    assert_eq!(kept(1_700_000_000), 1_700_000_000);
    assert_eq!(kept(-5), -5);
    assert_eq!(kept(LAST_SECOND), LAST_SECOND);
    assert_eq!(kept(LAST_SECOND + 1), 0);
    assert_eq!(kept(FIRST_SECOND), FIRST_SECOND);
    assert_eq!(kept(FIRST_SECOND - 1), 0);
    assert_eq!(kept(i64::MAX), 0);
    assert_eq!(kept(i64::MIN), 0);
}

#[test]
fn requests_carry_the_session() {
    let c = client();
    assert_eq!(c.uid(), "u1");
    let fields = |call: Call| {
        let r = c.request(&call);
        (r.shim, r.payload().unwrap())
    };
    assert_eq!(fields(Call::RootLinkId), (Shim::RootLinkId, "{\"uid\":\"u1\"}".to_owned()));
    assert_eq!(
        fields(Call::ListDirectory("l".to_owned())),
        (Shim::ListDirectory, "{\"link_id\":\"l\",\"uid\":\"u1\"}".to_owned())
    );
    assert_eq!(fields(Call::ListRecursive("l".to_owned())).0, Shim::ListRecursive);
    assert_eq!(fields(Call::Stat("l".to_owned())).0, Shim::Stat);
    assert_eq!(
        fields(Call::CreateFolder { parent: "p".to_owned(), name: "n".to_owned() }),
        (
            Shim::CreateFolder,
            "{\"name\":\"n\",\"parent_link_id\":\"p\",\"uid\":\"u1\"}".to_owned()
        )
    );
    assert_eq!(
        fields(Call::UploadFile {
            parent: "p".to_owned(),
            name: "n".to_owned(),
            local: "/x".to_owned(),
        }),
        (
            Shim::UploadFile,
            "{\"name\":\"n\",\"parent_link_id\":\"p\",\"src_path\":\"/x\",\"uid\":\"u1\"}"
                .to_owned()
        )
    );
    assert_eq!(
        fields(Call::DownloadFile { link: "l".to_owned(), local: "/x".to_owned() }),
        (
            Shim::DownloadFile,
            "{\"dest_path\":\"/x\",\"link_id\":\"l\",\"uid\":\"u1\"}".to_owned()
        )
    );
    assert_eq!(
        fields(Call::TrashLink("l".to_owned())),
        (Shim::TrashLink, "{\"link_id\":\"l\",\"uid\":\"u1\"}".to_owned())
    );
}

#[test]
fn a_native_remote_has_no_configuration() {
    let c = client();
    assert_eq!(c.delete_config(), Ok(()));
    assert_eq!(
        c.create_config(),
        Err("native-proton client does not accept rclone-style create_config payloads".to_owned())
    );
    assert_eq!(c.remote_type(), Ok(Some("native-proton".to_owned())));
}

#[test]
fn folders_and_files_are_the_whole_listing() {
    let entries = vec![
        entry("1", "a", true, 0),
        entry("2", "a/b", false, 0),
        entry("3", "c", false, 0),
    ];
    let count = |filter: ListFilter| list_items(&entries, "top", true, filter).len();
    assert_eq!(count(ListFilter::All), 3);
    assert_eq!(count(ListFilter::Dirs) + count(ListFilter::Files), 3);
    let all = list_items(&entries, "top", true, ListFilter::All);
    let (dirs, files): (Vec<RemoteItem>, Vec<RemoteItem>) =
        all.into_iter().partition(|item| item.is_dir);
    assert_eq!(list_items(&entries, "top", true, ListFilter::Dirs), dirs);
    assert_eq!(list_items(&entries, "top", true, ListFilter::Files), files);
    for item in list_items(&entries, "top", true, ListFilter::All) {
        assert_eq!(item.path.rsplit('/').next(), Some(item.name.as_str()));
    }
}

#[test]
fn slashes_at_the_ends_do_not_matter() {
    for path in ["Foo/sub", "/Foo/sub", "Foo/sub/", "//Foo/sub//"] {
        let (_, calls) = run(client().list(path, false, ListFilter::All), false);
        assert_eq!(calls.last(), Some(&Call::ListDirectory("s".to_owned())));
    }
}
