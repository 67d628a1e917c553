//! How an operation on a Proton drive proceeds: it walks from the root to the
//! link that a path names, one listing at a time, and then makes the call that
//! it is about. Each step is a call to be made outside; its answer leads to the
//! next.

use crate::domain::backend_events::{BackendEvent, EventTranslator, Operation};
use crate::domain::sync::{ListFilter, RemoteItem, RemoteItemView};
use crate::go::proton::{Entry, EntryView};
use crate::infrastructure::translators::proton::{proton_event, ProtonTranslator};
use crate::text::{
    bare, basename, begins, join3, law_bare_already, law_basename_is_the_last_piece,
    law_basename_under, law_child_of_a_folder, law_not_all_slashes, law_segments_at_a_slash, law_trimmed_once, parent,
    same, segments, slash, split_parent, split_slashes, trim_slashes,
};
use vstd::prelude::*;
use vstd::string::*;

verus! {

/// What an operation is about.
#[derive(Debug, PartialEq, Eq)]
pub enum Goal {
    Stat,
    List { recursive: bool, filter: ListFilter },
    Mkdir,
    Trash,
    Upload { local: String },
    Download { local: String },
}

/// A call to be made on the session.
#[derive(Debug, PartialEq, Eq)]
pub enum Call {
    RootLinkId,
    ListDirectory(String),
    ListRecursive(String),
    Stat(String),
    CreateFolder { parent: String, name: String },
    UploadFile { parent: String, name: String, local: String },
    DownloadFile { link: String, local: String },
    TrashLink(String),
}

/// The answer to a call: the link of the root, of a new folder or of a new
/// file; the entries of a listing; the entry of a link, where it is active; or
/// only whether it was done.
#[derive(Debug, PartialEq, Eq)]
pub enum Reply {
    Link(Result<String, String>),
    Entries(Result<Vec<Entry>, String>),
    Entry(Result<Option<Entry>, String>),
    Done(Result<(), String>),
}

/// What an operation came to.
#[derive(Debug, PartialEq, Eq)]
pub enum Answer {
    Item(Result<Option<RemoteItem>, String>),
    Items(Result<Vec<RemoteItem>, String>),
    Unit(Result<(), String>),
}

/// Where an operation stands: it waits for the root, for the listing in which
/// the segment of this number is looked up, or for the call it is about.
#[derive(Clone, Copy, Debug, PartialEq, Eq, Structural)]
pub enum Stage {
    Root,
    Listing(usize),
    Last,
}

/// An operation on its way. `segments` is the way from the root to the link
/// that the last call needs; `base` is the name that is created there, for an
/// operation that creates.
#[derive(Debug, PartialEq, Eq)]
pub struct Job {
    goal: Goal,
    path: String,
    base: String,
    segments: Vec<String>,
    stage: Stage,
}

/// The next thing to do: make a call and hand its answer to the job, or take
/// the answer.
#[derive(Debug, PartialEq, Eq)]
pub enum Step {
    Call(Job, Call),
    Done(Answer),
}

/// A [`Goal`] as a mathematical value.
pub enum GoalView {
    Stat,
    List { recursive: bool, filter: ListFilter },
    Mkdir,
    Trash,
    Upload { local: Seq<char> },
    Download { local: Seq<char> },
}

/// A [`Call`] as a mathematical value.
pub enum CallView {
    RootLinkId,
    ListDirectory(Seq<char>),
    ListRecursive(Seq<char>),
    Stat(Seq<char>),
    CreateFolder { parent: Seq<char>, name: Seq<char> },
    UploadFile { parent: Seq<char>, name: Seq<char>, local: Seq<char> },
    DownloadFile { link: Seq<char>, local: Seq<char> },
    TrashLink(Seq<char>),
}

/// A [`Reply`] as a mathematical value.
pub enum ReplyView {
    Link(Result<Seq<char>, Seq<char>>),
    Entries(Result<Seq<EntryView>, Seq<char>>),
    Entry(Result<Option<EntryView>, Seq<char>>),
    Done(Result<(), Seq<char>>),
}

/// An [`Answer`] as a mathematical value.
pub enum AnswerView {
    Item(Result<Option<RemoteItemView>, Seq<char>>),
    Items(Result<Seq<RemoteItemView>, Seq<char>>),
    Unit(Result<(), Seq<char>>),
}

/// A [`Job`] as a mathematical value.
pub struct JobView {
    pub goal: GoalView,
    pub path: Seq<char>,
    pub base: Seq<char>,
    pub segments: Seq<Seq<char>>,
    pub stage: Stage,
}

/// A [`Step`] as a mathematical value.
pub enum StepView {
    Call(JobView, CallView),
    Done(AnswerView),
}

impl View for Goal {
    type V = GoalView;

    open spec fn view(&self) -> GoalView {
        match self {
            Goal::Stat => GoalView::Stat,
            Goal::List { recursive, filter } => GoalView::List {
                recursive: *recursive,
                filter: *filter,
            },
            Goal::Mkdir => GoalView::Mkdir,
            Goal::Trash => GoalView::Trash,
            Goal::Upload { local } => GoalView::Upload { local: local@ },
            Goal::Download { local } => GoalView::Download { local: local@ },
        }
    }
}

impl View for Call {
    type V = CallView;

    open spec fn view(&self) -> CallView {
        match self {
            Call::RootLinkId => CallView::RootLinkId,
            Call::ListDirectory(link) => CallView::ListDirectory(link@),
            Call::ListRecursive(link) => CallView::ListRecursive(link@),
            Call::Stat(link) => CallView::Stat(link@),
            Call::CreateFolder { parent, name } => CallView::CreateFolder {
                parent: parent@,
                name: name@,
            },
            Call::UploadFile { parent, name, local } => CallView::UploadFile {
                parent: parent@,
                name: name@,
                local: local@,
            },
            Call::DownloadFile { link, local } => CallView::DownloadFile {
                link: link@,
                local: local@,
            },
            Call::TrashLink(link) => CallView::TrashLink(link@),
        }
    }
}

impl View for Reply {
    type V = ReplyView;

    open spec fn view(&self) -> ReplyView {
        match self {
            Reply::Link(r) => ReplyView::Link(
                match r {
                    Ok(link) => Ok(link@),
                    Err(e) => Err(e@),
                },
            ),
            Reply::Entries(r) => ReplyView::Entries(
                match r {
                    Ok(entries) => Ok(entries.deep_view()),
                    Err(e) => Err(e@),
                },
            ),
            Reply::Entry(r) => ReplyView::Entry(
                match r {
                    Ok(entry) => Ok(entry.deep_view()),
                    Err(e) => Err(e@),
                },
            ),
            Reply::Done(r) => ReplyView::Done(
                match r {
                    Ok(()) => Ok(()),
                    Err(e) => Err(e@),
                },
            ),
        }
    }
}

impl View for Answer {
    type V = AnswerView;

    open spec fn view(&self) -> AnswerView {
        match self {
            Answer::Item(r) => AnswerView::Item(
                match r {
                    Ok(item) => Ok(item.deep_view()),
                    Err(e) => Err(e@),
                },
            ),
            Answer::Items(r) => AnswerView::Items(
                match r {
                    Ok(items) => Ok(items.deep_view()),
                    Err(e) => Err(e@),
                },
            ),
            Answer::Unit(r) => AnswerView::Unit(
                match r {
                    Ok(()) => Ok(()),
                    Err(e) => Err(e@),
                },
            ),
        }
    }
}

impl View for Job {
    type V = JobView;

    closed spec fn view(&self) -> JobView {
        JobView {
            goal: self.goal@,
            path: self.path@,
            base: self.base@,
            segments: self.segments.deep_view(),
            stage: self.stage,
        }
    }
}

impl View for Step {
    type V = StepView;

    open spec fn view(&self) -> StepView {
        match self {
            Step::Call(job, call) => StepView::Call(job@, call@),
            Step::Done(answer) => StepView::Done(answer@),
        }
    }
}

/// Whether the operation creates something under the folder it walks to.
pub open spec fn creates(goal: GoalView) -> bool {
    goal is Mkdir || goal is Upload
}

/// The segments that lead from the root to `path`: none for the root itself.
pub open spec fn way(path: Seq<char>) -> Seq<Seq<char>> {
    if bare(path).len() == 0 {
        Seq::empty()
    } else {
        segments(bare(path))
    }
}

/// An operation that fails with `e`.
pub open spec fn failed(goal: GoalView, e: Seq<char>) -> AnswerView {
    match goal {
        GoalView::Stat => AnswerView::Item(Err(e)),
        GoalView::List { .. } => AnswerView::Items(Err(e)),
        _ => AnswerView::Unit(Err(e)),
    }
}

/// An operation whose way ends nowhere: for `stat` and `list` that is an
/// answer, for the others an error.
pub open spec fn missing(goal: GoalView, path: Seq<char>) -> AnswerView {
    match goal {
        GoalView::Stat => AnswerView::Item(Ok(None)),
        GoalView::List { .. } => AnswerView::Items(Ok(Seq::empty())),
        GoalView::Mkdir | GoalView::Upload { .. } => AnswerView::Unit(
            Err("parent path '"@ + parent(bare(path)) + "' not found"@),
        ),
        GoalView::Trash | GoalView::Download { .. } => AnswerView::Unit(
            Err("path '"@ + path + "' not found on remote"@),
        ),
    }
}

/// The call that the operation is about, once its way has led to `link`.
pub open spec fn last_call(goal: GoalView, base: Seq<char>, link: Seq<char>) -> CallView {
    match goal {
        GoalView::Stat => CallView::Stat(link),
        GoalView::List { recursive: true, .. } => CallView::ListRecursive(link),
        GoalView::List { recursive: false, .. } => CallView::ListDirectory(link),
        GoalView::Mkdir => CallView::CreateFolder { parent: link, name: base },
        GoalView::Trash => CallView::TrashLink(link),
        GoalView::Upload { local } => CallView::UploadFile { parent: link, name: base, local },
        GoalView::Download { local } => CallView::DownloadFile { link, local },
    }
}

/// The first step of an operation. The root itself can be neither created nor
/// uploaded to.
pub open spec fn start(goal: GoalView, path: Seq<char>) -> StepView {
    if creates(goal) && bare(path).len() == 0 {
        StepView::Done(AnswerView::Unit(Err("cannot operate on root itself"@)))
    } else {
        StepView::Call(
            JobView {
                goal,
                path,
                base: if creates(goal) {
                    basename(bare(path))
                } else {
                    Seq::empty()
                },
                segments: if creates(goal) {
                    way(parent(bare(path)))
                } else {
                    way(path)
                },
                stage: Stage::Root,
            },
            CallView::RootLinkId,
        )
    }
}

/// The step after the first `done` segments have led to `link`. Before each
/// further listing the operation heeds a request to stop.
pub open spec fn onward(job: JobView, done: int, link: Seq<char>, cancelled: bool) -> StepView {
    if done >= job.segments.len() {
        StepView::Call(
            JobView { stage: Stage::Last, ..job },
            last_call(job.goal, job.base, link),
        )
    } else if cancelled {
        StepView::Done(failed(job.goal, "cancelled"@))
    } else {
        StepView::Call(
            JobView { stage: Stage::Listing(done as usize), ..job },
            CallView::ListDirectory(link),
        )
    }
}

/// The first entry of that name.
pub open spec fn named(entries: Seq<EntryView>, name: Seq<char>) -> Option<EntryView>
    decreases entries.len(),
{
    if entries.len() == 0 {
        None
    } else if entries[0].name == name {
        Some(entries[0])
    } else {
        named(entries.drop_first(), name)
    }
}

/// The earliest second that `time::OffsetDateTime` can hold.
pub const FIRST_SECOND: i64 = -377705116800;

/// The latest second that `time::OffsetDateTime` can hold.
pub const LAST_SECOND: i64 = 253402300799;

/// A time stamp as it is kept: the epoch, where no date can hold it.
pub open spec fn kept_time(secs: i64) -> int {
    if FIRST_SECOND <= secs <= LAST_SECOND {
        secs as int
    } else {
        0
    }
}

/// `name` under the folder `prefix`; an empty prefix stands for the root.
pub open spec fn under(prefix: Seq<char>, name: Seq<char>) -> Seq<char> {
    if prefix.len() == 0 {
        name
    } else {
        prefix + "/"@ + name
    }
}

/// Whether a listing keeps an entry.
pub open spec fn keeps(filter: ListFilter, is_dir: bool) -> bool {
    match filter {
        ListFilter::All => true,
        ListFilter::Dirs => is_dir,
        ListFilter::Files => !is_dir,
    }
}

/// An entry of a listing of the folder `folder`. The entries of a recursive
/// listing are named by their path from there.
pub open spec fn listed(entry: EntryView, folder: Seq<char>, recursive: bool) -> RemoteItemView {
    RemoteItemView {
        is_dir: entry.is_dir,
        path: under(folder, entry.name),
        name: if recursive {
            basename(entry.name)
        } else {
            entry.name
        },
        mod_time: kept_time(entry.mod_time_unix),
    }
}

/// What a listing of the folder `folder` gives: the entries that the filter
/// keeps, in their order.
pub open spec fn listing(
    entries: Seq<EntryView>,
    folder: Seq<char>,
    recursive: bool,
    filter: ListFilter,
) -> Seq<RemoteItemView>
    decreases entries.len(),
{
    if entries.len() == 0 {
        Seq::empty()
    } else {
        let before = listing(entries.drop_last(), folder, recursive, filter);
        if keeps(filter, entries.last().is_dir) {
            before.push(listed(entries.last(), folder, recursive))
        } else {
            before
        }
    }
}

/// What a `stat` of `path` gives for the entry found there. The server leaves
/// the name of the root empty: then the path gives the name.
pub open spec fn described(entry: EntryView, path: Seq<char>) -> RemoteItemView {
    RemoteItemView {
        is_dir: entry.is_dir,
        path: bare(path),
        name: if entry.name.len() == 0 {
            basename(bare(path))
        } else {
            entry.name
        },
        mod_time: kept_time(entry.mod_time_unix),
    }
}

/// What the operation comes to when its last call is answered with `reply`. A
/// folder that is already there counts as created.
pub open spec fn concluded(goal: GoalView, path: Seq<char>, reply: ReplyView) -> AnswerView {
    match (goal, reply) {
        (GoalView::Stat, ReplyView::Entry(Ok(Some(entry)))) => AnswerView::Item(
            Ok(Some(described(entry, path))),
        ),
        (GoalView::Stat, ReplyView::Entry(Ok(None))) => AnswerView::Item(Ok(None)),
        (GoalView::List { recursive, filter }, ReplyView::Entries(Ok(entries))) => {
            AnswerView::Items(Ok(listing(entries, bare(path), recursive, filter)))
        },
        (GoalView::Mkdir, ReplyView::Link(Err(e))) => if proton_event(
            Operation::Mkdir,
            e,
        ) is AlreadyExists {
            AnswerView::Unit(Ok(()))
        } else {
            AnswerView::Unit(Err(e))
        },
        (_, ReplyView::Link(Err(e))) => failed(goal, e),
        (_, ReplyView::Entries(Err(e))) => failed(goal, e),
        (_, ReplyView::Entry(Err(e))) => failed(goal, e),
        (_, ReplyView::Done(Err(e))) => failed(goal, e),
        _ => AnswerView::Unit(Ok(())),
    }
}

impl JobView {
    /// Whether `reply` answers the call that the job waits for.
    pub open spec fn awaits(self, reply: ReplyView) -> bool {
        match self.stage {
            Stage::Root => reply is Link,
            Stage::Listing(next) => reply is Entries && next < self.segments.len(),
            Stage::Last => match self.goal {
                GoalView::Stat => reply is Entry,
                GoalView::List { .. } => reply is Entries,
                GoalView::Mkdir | GoalView::Upload { .. } => reply is Link,
                GoalView::Trash | GoalView::Download { .. } => reply is Done,
            },
        }
    }

    /// The step after `reply`. `cancelled` says whether a request to stop has
    /// come.
    pub open spec fn next(self, reply: ReplyView, cancelled: bool) -> StepView {
        match (self.stage, reply) {
            (Stage::Root, ReplyView::Link(Ok(link))) => onward(self, 0, link, cancelled),
            (Stage::Root, ReplyView::Link(Err(e))) => StepView::Done(failed(self.goal, e)),
            (Stage::Listing(next), ReplyView::Entries(Ok(entries))) => match named(
                entries,
                self.segments[next as int],
            ) {
                Some(entry) => onward(self, next + 1, entry.link_id, cancelled),
                None => StepView::Done(missing(self.goal, self.path)),
            },
            (Stage::Listing(_), ReplyView::Entries(Err(e))) => StepView::Done(
                failed(self.goal, e),
            ),
            _ => StepView::Done(concluded(self.goal, self.path, reply)),
        }
    }
}

/// Calls `time::OffsetDateTime::from_unix_timestamp` and reads the second back
/// from what it gives: the same second, where a date between the years -9999
/// and 9999 holds it, and nothing otherwise.
#[verifier::external_body]
fn date_second(secs: i64) -> (r: Option<i64>)
    ensures
        r == (if FIRST_SECOND <= secs <= LAST_SECOND {
            Some(secs)
        } else {
            None
        }),
{
    time::OffsetDateTime::from_unix_timestamp(secs).ok().map(|date| date.unix_timestamp())
}

/// A time stamp as it is kept.
fn keep_time(secs: i64) -> (r: i64)
    ensures
        r == kept_time(secs),
{
    match date_second(secs) {
        Some(second) => second,
        None => 0,
    }
}

/// `name` under the folder `prefix`.
fn join_under(prefix: &str, name: &str) -> (r: String)
    ensures
        r@ == under(prefix@, name@),
{
    if prefix.is_empty() {
        name.to_owned()
    } else {
        join3(prefix, "/", name)
    }
}

/// Whether a listing keeps an entry.
fn keep(filter: ListFilter, is_dir: bool) -> (r: bool)
    ensures
        r == keeps(filter, is_dir),
{
    match filter {
        ListFilter::All => true,
        ListFilter::Dirs => is_dir,
        ListFilter::Files => !is_dir,
    }
}

/// The link of the first entry of that name.
pub fn find_link(entries: &Vec<Entry>, name: &str) -> (r: Option<String>)
    ensures
        match named(entries.deep_view(), name@) {
            Some(entry) => r matches Some(link) && link@ == entry.link_id,
            None => r is None,
        },
        match r {
            Some(link) => exists|i: int|
                #![trigger entries@[i]]
                {
                    &&& 0 <= i < entries@.len()
                    &&& entries@[i].name@ == name@
                    &&& entries@[i].link_id@ == link@
                    &&& forall|k: int| 0 <= k < i ==> (#[trigger] entries@[k]).name@ != name@
                },
            None => forall|k: int|
                0 <= k < entries@.len() ==> (#[trigger] entries@[k]).name@ != name@,
        },
{
    let ghost all = entries.deep_view();
    let mut i: usize = 0;
    assert(all.skip(0) =~= all);
    while i < entries.len()
        invariant
            i <= entries@.len(),
            all == entries.deep_view(),
            named(all, name@) == named(all.skip(i as int), name@),
            forall|k: int| 0 <= k < i ==> (#[trigger] entries@[k]).name@ != name@,
        decreases entries@.len() - i,
    {
        assert(all.skip(i as int)[0] == entries@[i as int]@);
        assert(all.skip(i as int).drop_first() =~= all.skip(i + 1));
        if same(entries[i].name.as_str(), name) {
            return Some(entries[i].link_id.clone());
        }
        i += 1;
    }
    None
}

/// An entry of a listing of the folder `folder`.
pub fn entry_to_remote_item(entry: &Entry, folder: &str, recursive: bool) -> (r: RemoteItem)
    ensures
        r@ == listed(entry@, folder@, recursive),
{
    let name = if recursive {
        split_parent(entry.name.as_str()).1
    } else {
        entry.name.clone()
    };
    RemoteItem {
        is_dir: entry.is_dir,
        path: join_under(folder, entry.name.as_str()),
        name,
        mod_time: keep_time(entry.mod_time_unix),
    }
}

/// What a listing of the folder `folder` gives.
pub fn list_items(
    entries: &Vec<Entry>,
    folder: &str,
    recursive: bool,
    filter: ListFilter,
) -> (r: Vec<RemoteItem>)
    ensures
        r.deep_view() == listing(entries.deep_view(), folder@, recursive, filter),
{
    let ghost all = entries.deep_view();
    let mut out: Vec<RemoteItem> = Vec::new();
    let mut i: usize = 0;
    assert(out.deep_view() =~= Seq::empty());
    while i < entries.len()
        invariant
            i <= entries@.len(),
            all == entries.deep_view(),
            out.deep_view() == listing(all.take(i as int), folder@, recursive, filter),
        decreases entries@.len() - i,
    {
        let ghost before = out.deep_view();
        assert(all.take(i + 1).drop_last() =~= all.take(i as int));
        assert(all.take(i + 1).last() == entries@[i as int]@);
        if keep(filter, entries[i].is_dir) {
            let item = entry_to_remote_item(&entries[i], folder, recursive);
            out.push(item);
            assert(out.deep_view() =~= before.push(item@));
        }
        i += 1;
    }
    assert(all.take(all.len() as int) =~= all);
    out
}

/// What a `stat` of `path` gives for the entry found there.
pub fn describe(entry: &Entry, path: &str) -> (r: RemoteItem)
    ensures
        r@ == described(entry@, path@),
{
    let trimmed = trim_slashes(path);
    let name = if entry.name.as_str().is_empty() {
        split_parent(trimmed.as_str()).1
    } else {
        entry.name.clone()
    };
    RemoteItem {
        is_dir: entry.is_dir,
        path: trimmed,
        name,
        mod_time: keep_time(entry.mod_time_unix),
    }
}

/// The segments that lead from the root to `path`.
fn way_to(path: &str) -> (r: Vec<String>)
    ensures
        r.deep_view() == way(path@),
{
    let trimmed = trim_slashes(path);
    if trimmed.as_str().is_empty() {
        let none: Vec<String> = Vec::new();
        assert(none.deep_view() =~= Seq::empty());
        none
    } else {
        split_slashes(trimmed.as_str())
    }
}

/// The first step of an operation.
pub fn begin(goal: Goal, path: &str) -> (r: Step)
    ensures
        r@ == start(goal@, path@),
{
    let creating = match goal {
        Goal::Mkdir | Goal::Upload { .. } => true,
        _ => false,
    };
    if creating {
        let trimmed = trim_slashes(path);
        if trimmed.as_str().is_empty() {
            return Step::Done(Answer::Unit(Err("cannot operate on root itself".to_owned())));
        }
        let (above, base) = split_parent(trimmed.as_str());
        let segments = way_to(above.as_str());
        let job = Job { goal, path: path.to_owned(), base, segments, stage: Stage::Root };
        Step::Call(job, Call::RootLinkId)
    } else {
        let segments = way_to(path);
        let job = Job {
            goal,
            path: path.to_owned(),
            base: String::new(),
            segments,
            stage: Stage::Root,
        };
        Step::Call(job, Call::RootLinkId)
    }
}

/// An operation that fails with `e`.
fn fail(goal: &Goal, e: String) -> (r: Answer)
    ensures
        r@ == failed(goal@, e@),
{
    match goal {
        Goal::Stat => Answer::Item(Err(e)),
        Goal::List { .. } => Answer::Items(Err(e)),
        _ => Answer::Unit(Err(e)),
    }
}

impl Job {
    /// The step after the first `done` segments have led to `link`.
    fn go_on(self, done: usize, link: String, cancelled: bool) -> (r: Step)
        requires
            done <= self@.segments.len(),
        ensures
            r@ == onward(self@, done as int, link@, cancelled),
    {
        if done >= self.segments.len() {
            let call = match &self.goal {
                Goal::Stat => Call::Stat(link),
                Goal::List { recursive, .. } => if *recursive {
                    Call::ListRecursive(link)
                } else {
                    Call::ListDirectory(link)
                },
                Goal::Mkdir => Call::CreateFolder { parent: link, name: self.base.clone() },
                Goal::Trash => Call::TrashLink(link),
                Goal::Upload { local } => Call::UploadFile {
                    parent: link,
                    name: self.base.clone(),
                    local: local.clone(),
                },
                Goal::Download { local } => Call::DownloadFile { link, local: local.clone() },
            };
            Step::Call(Job { stage: Stage::Last, ..self }, call)
        } else if cancelled {
            Step::Done(fail(&self.goal, "cancelled".to_owned()))
        } else {
            Step::Call(Job { stage: Stage::Listing(done), ..self }, Call::ListDirectory(link))
        }
    }

    /// What the operation comes to when its way ends nowhere.
    fn miss(&self) -> (r: Answer)
        ensures
            r@ == missing(self@.goal, self@.path),
    {
        match &self.goal {
            Goal::Stat => Answer::Item(Ok(None)),
            Goal::List { .. } => {
                let none: Vec<RemoteItem> = Vec::new();
                assert(none.deep_view() =~= Seq::empty());
                Answer::Items(Ok(none))
            },
            Goal::Mkdir | Goal::Upload { .. } => {
                let above = split_parent(trim_slashes(self.path.as_str()).as_str()).0;
                Answer::Unit(Err(join3("parent path '", above.as_str(), "' not found")))
            },
            Goal::Trash | Goal::Download { .. } => Answer::Unit(
                Err(join3("path '", self.path.as_str(), "' not found on remote")),
            ),
        }
    }

    /// What the operation comes to when its last call is answered with
    /// `reply`.
    fn conclude(&self, reply: Reply) -> (r: Answer)
        ensures
            r@ == concluded(self@.goal, self@.path, reply@),
    {
        match reply {
            Reply::Link(Err(e)) => match &self.goal {
                Goal::Mkdir => match ProtonTranslator.classify(Operation::Mkdir, e.as_str()) {
                    BackendEvent::AlreadyExists => Answer::Unit(Ok(())),
                    _ => Answer::Unit(Err(e)),
                },
                _ => fail(&self.goal, e),
            },
            Reply::Entries(Err(e)) => fail(&self.goal, e),
            Reply::Entry(Err(e)) => fail(&self.goal, e),
            Reply::Done(Err(e)) => fail(&self.goal, e),
            Reply::Entry(Ok(entry)) => match &self.goal {
                Goal::Stat => match entry {
                    Some(found) => Answer::Item(
                        Ok(Some(describe(&found, self.path.as_str()))),
                    ),
                    None => Answer::Item(Ok(None)),
                },
                _ => Answer::Unit(Ok(())),
            },
            Reply::Entries(Ok(entries)) => match &self.goal {
                Goal::List { recursive, filter } => Answer::Items(
                    Ok(
                        list_items(
                            &entries,
                            trim_slashes(self.path.as_str()).as_str(),
                            *recursive,
                            *filter,
                        ),
                    ),
                ),
                _ => Answer::Unit(Ok(())),
            },
            _ => Answer::Unit(Ok(())),
        }
    }

    /// The step after `reply`, the answer to the call that the job waits for.
    /// `cancelled` says whether a request to stop has come by then.
    pub fn resume(self, reply: Reply, cancelled: bool) -> (r: Step)
        requires
            self@.awaits(reply@),
        ensures
            r@ == self@.next(reply@, cancelled),
    {
        match self.stage {
            Stage::Root => match reply {
                Reply::Link(Ok(link)) => self.go_on(0, link, cancelled),
                Reply::Link(Err(e)) => Step::Done(fail(&self.goal, e)),
                other => Step::Done(self.conclude(other)),
            },
            Stage::Listing(next) => match reply {
                Reply::Entries(Ok(entries)) => {
                    assert(self.segments.len() <= usize::MAX);
                    assert(self@.segments[next as int] == self.segments@[next as int]@);
                    match find_link(&entries, self.segments[next].as_str()) {
                        Some(link) => self.go_on(next + 1, link, cancelled),
                        None => Step::Done(self.miss()),
                    }
                },
                Reply::Entries(Err(e)) => Step::Done(fail(&self.goal, e)),
                other => Step::Done(self.conclude(other)),
            },
            Stage::Last => Step::Done(self.conclude(reply)),
        }
    }
}

/// Whether `reply` is the kind of answer that `call` gets.
pub open spec fn fits(call: CallView, reply: ReplyView) -> bool {
    match call {
        CallView::RootLinkId | CallView::CreateFolder { .. } | CallView::UploadFile { .. } => {
            reply is Link
        },
        CallView::ListDirectory(_) | CallView::ListRecursive(_) => reply is Entries,
        CallView::Stat(_) => reply is Entry,
        CallView::DownloadFile { .. } | CallView::TrashLink(_) => reply is Done,
    }
}

/// A step that can go on: whatever answers its call is what its job awaits.
pub open spec fn can_go_on(step: StepView) -> bool {
    step matches StepView::Call(job, call) ==> forall|reply: ReplyView| #[trigger]
        fits(call, reply) ==> job.awaits(reply)
}

/// A step that changes nothing on the drive before its way is walked: until
/// the last call only the root is asked for and folders are listed.
pub open spec fn reads_first(step: StepView) -> bool {
    step matches StepView::Call(job, call) ==> job.stage != Stage::Last ==> (call is RootLinkId
        || call is ListDirectory)
}

/// The first step of an operation can go on, and only reads.
pub proof fn law_start_goes_on(goal: GoalView, path: Seq<char>)
    ensures
        can_go_on(start(goal, path)),
        reads_first(start(goal, path)),
{
}

/// So does every step after an answer that the job awaits: an operation never
/// gets stuck on an answer, and it changes nothing before its way is walked.
pub proof fn law_next_goes_on(job: JobView, reply: ReplyView, cancelled: bool)
    requires
        job.awaits(reply),
        job.segments.len() <= usize::MAX,
    ensures
        can_go_on(job.next(reply, cancelled)),
        reads_first(job.next(reply, cancelled)),
{
}

/// Once a request to stop has come, a job that would list another folder ends
/// with an error instead, whatever the folder before it held.
pub proof fn law_cancel_stops_the_walk(job: JobView, reply: ReplyView)
    requires
        job.awaits(reply),
        job.stage == Stage::Root || job.stage is Listing,
    ensures
        job.next(reply, true) matches StepView::Call(after, _) ==> after.stage == Stage::Last,
        job.next(reply, true) is Done && job.next(reply, false) is Call
            ==> job.next(reply, true) == StepView::Done(failed(job.goal, "cancelled"@)),
{
}

/// The link that `way` leads to from `link` on a drive that answers each call
/// as `drive` says: nothing where a segment is missing.
pub open spec fn walked(
    drive: spec_fn(CallView) -> ReplyView,
    way: Seq<Seq<char>>,
    link: Seq<char>,
) -> Result<Option<Seq<char>>, Seq<char>>
    decreases way.len(),
{
    if way.len() == 0 {
        Ok(Some(link))
    } else {
        match drive(CallView::ListDirectory(link)) {
            ReplyView::Entries(Ok(entries)) => match named(entries, way[0]) {
                Some(entry) => walked(drive, way.drop_first(), entry.link_id),
                None => Ok(None),
            },
            ReplyView::Entries(Err(e)) => Err(e),
            _ => Ok(None),
        }
    }
}

/// The link that `path` names on the drive.
pub open spec fn resolved(drive: spec_fn(CallView) -> ReplyView, path: Seq<char>) -> Result<
    Option<Seq<char>>,
    Seq<char>,
> {
    match drive(CallView::RootLinkId) {
        ReplyView::Link(Ok(root)) => walked(drive, way(path), root),
        ReplyView::Link(Err(e)) => Err(e),
        _ => Ok(None),
    }
}

/// What an operation comes to on a drive that answers each call as `drive`
/// says, told without its steps: the path, or for an operation that creates
/// the path of the folder above it, is resolved, and the one call that the
/// operation is about decides.
pub open spec fn outcome(
    drive: spec_fn(CallView) -> ReplyView,
    goal: GoalView,
    path: Seq<char>,
) -> AnswerView {
    if creates(goal) && bare(path).len() == 0 {
        AnswerView::Unit(Err("cannot operate on root itself"@))
    } else {
        let place = if creates(goal) {
            parent(bare(path))
        } else {
            path
        };
        let base = if creates(goal) {
            basename(bare(path))
        } else {
            Seq::empty()
        };
        match resolved(drive, place) {
            Ok(Some(link)) => concluded(goal, path, drive(last_call(goal, base, link))),
            Ok(None) => missing(goal, path),
            Err(e) => failed(goal, e),
        }
    }
}

/// What comes of `step` when each call is answered as `drive` says and nobody
/// asks to stop, within so many calls.
pub open spec fn run(step: StepView, drive: spec_fn(CallView) -> ReplyView, calls: nat) -> Option<
    AnswerView,
>
    decreases calls,
{
    match step {
        StepView::Done(answer) => Some(answer),
        StepView::Call(job, call) => if calls == 0 {
            None
        } else {
            run(job.next(drive(call), false), drive, (calls - 1) as nat)
        },
    }
}

/// The rest of the walk.
proof fn lemma_walk(
    job: JobView,
    drive: spec_fn(CallView) -> ReplyView,
    done: int,
    link: Seq<char>,
    calls: nat,
)
    requires
        forall|call: CallView| fits(call, #[trigger] drive(call)),
        0 <= done <= job.segments.len() <= usize::MAX,
        calls > job.segments.len() - done,
    ensures
        run(onward(job, done, link, false), drive, calls) == Some(
            match walked(drive, job.segments.skip(done), link) {
                Ok(Some(found)) => concluded(
                    job.goal,
                    job.path,
                    drive(last_call(job.goal, job.base, found)),
                ),
                Ok(None) => missing(job.goal, job.path),
                Err(e) => failed(job.goal, e),
            },
        ),
    decreases job.segments.len() - done,
{
    if done == job.segments.len() {
        let last = JobView { stage: Stage::Last, ..job };
        let call = last_call(job.goal, job.base, link);
        assert(onward(job, done, link, false) == StepView::Call(last, call));
        assert(fits(call, drive(call)));
        assert(last.next(drive(call), false) == StepView::Done(
            concluded(job.goal, job.path, drive(call)),
        ));
        reveal_with_fuel(run, 2);
    } else {
        let waiting = JobView { stage: Stage::Listing(done as usize), ..job };
        let call = CallView::ListDirectory(link);
        let rest = job.segments.skip(done);
        assert(rest[0] == job.segments[done]);
        assert(rest.drop_first() =~= job.segments.skip(done + 1));
        assert(fits(call, drive(call)));
        match drive(call) {
            ReplyView::Entries(Ok(entries)) => match named(entries, rest[0]) {
                Some(entry) => {
                    assert(onward(waiting, done + 1, entry.link_id, false) == onward(
                        job,
                        done + 1,
                        entry.link_id,
                        false,
                    ));
                    lemma_walk(job, drive, done + 1, entry.link_id, (calls - 1) as nat);
                },
                None => {
                    reveal_with_fuel(run, 2);
                },
            },
            _ => {
                reveal_with_fuel(run, 2);
            },
        }
    }
}

/// An operation does what is said of it: on a drive that answers each call the
/// same way throughout, its steps lead to the outcome, within two calls more
/// than the path has segments.
pub proof fn law_steps_lead_to_outcome(
    drive: spec_fn(CallView) -> ReplyView,
    goal: GoalView,
    path: Seq<char>,
    calls: nat,
)
    requires
        forall|call: CallView| fits(call, #[trigger] drive(call)),
        way(path).len() <= usize::MAX,
        way(parent(bare(path))).len() <= usize::MAX,
        calls >= 2 + way(if creates(goal) {
            parent(bare(path))
        } else {
            path
        }).len(),
    ensures
        run(start(goal, path), drive, calls) == Some(outcome(drive, goal, path)),
{
    match start(goal, path) {
        StepView::Done(_) => {},
        StepView::Call(job, call) => {
            assert(fits(call, drive(call)));
            assert(job.segments.skip(0) =~= job.segments);
            match drive(call) {
                ReplyView::Link(Ok(root)) => {
                    lemma_walk(job, drive, 0, root, (calls - 1) as nat);
                },
                _ => {
                    reveal_with_fuel(run, 2);
                },
            }
        },
    }
}

/// Something is moved into the trash only by an operation that deletes, and
/// such an operation makes no other change.
pub proof fn law_only_deletion_trashes(goal: GoalView, base: Seq<char>, link: Seq<char>)
    ensures
        last_call(goal, base, link) is TrashLink <==> goal is Trash,
        goal is Trash ==> last_call(goal, base, link) == CallView::TrashLink(link),
{
}

/// Slashes at the ends of a path do not matter for where it leads.
pub proof fn law_outer_slashes_do_not_matter(drive: spec_fn(CallView) -> ReplyView, path: Seq<char>)
    ensures
        way(bare(path)) == way(path),
        resolved(drive, bare(path)) == resolved(drive, path),
{
    law_trimmed_once(path, slash());
}

/// A listing without a filter has an item for each entry. The listings of the
/// folders and of the files are its folders and its files, in their order.
pub proof fn law_filters_share_a_listing(
    entries: Seq<EntryView>,
    folder: Seq<char>,
    recursive: bool,
)
    ensures
        ({
            let all = listing(entries, folder, recursive, ListFilter::All);
            &&& all == entries.map_values(|e: EntryView| listed(e, folder, recursive))
            &&& listing(entries, folder, recursive, ListFilter::Dirs) == all.filter(
                |i: RemoteItemView| i.is_dir,
            )
            &&& listing(entries, folder, recursive, ListFilter::Files) == all.filter(
                |i: RemoteItemView| !i.is_dir,
            )
        }),
    decreases entries.len(),
{
    reveal(Seq::filter);
    let all = listing(entries, folder, recursive, ListFilter::All);
    if entries.len() > 0 {
        law_filters_share_a_listing(entries.drop_last(), folder, recursive);
        assert(all.drop_last() =~= listing(
            entries.drop_last(),
            folder,
            recursive,
            ListFilter::All,
        ));
    }
    assert(all =~= entries.map_values(|e: EntryView| listed(e, folder, recursive)));
}

/// An item of a recursive listing is named by the end of its path.
pub proof fn law_listed_by_the_end_of_the_path(entry: EntryView, folder: Seq<char>)
    ensures
        listed(entry, folder, true).name == basename(listed(entry, folder, true).path),
{
    reveal_strlit("/");
    if folder.len() > 0 {
        assert("/"@ =~= seq!['/']);
        law_basename_under(folder, entry.name);
    }
}

/// A folder that is there already counts as created, a file that is there
/// already does not count as uploaded.
pub proof fn law_only_folders_may_exist(path: Seq<char>, local: Seq<char>, e: Seq<char>)
    requires
        proton_event(Operation::Mkdir, e) is AlreadyExists,
    ensures
        concluded(GoalView::Mkdir, path, ReplyView::Link(Err(e))) == AnswerView::Unit(Ok(())),
        concluded(GoalView::Upload { local }, path, ReplyView::Link(Err(e))) == AnswerView::Unit(
            Err(e),
        ),
{
}

/// Looking up a name compares whole names: an entry is found exactly where one
/// has that name, and it is the first that has it.
pub proof fn law_named_is_the_first(entries: Seq<EntryView>, name: Seq<char>)
    ensures
        named(entries, name) is Some <==> exists|i: int|
            0 <= i < entries.len() && (#[trigger] entries[i]).name == name,
        named(entries, name) matches Some(entry) ==> exists|i: int|
            #![trigger entries[i]]
            {
                &&& 0 <= i < entries.len()
                &&& entries[i] == entry
                &&& entries[i].name == name
                &&& forall|k: int| 0 <= k < i ==> (#[trigger] entries[k]).name != name
            },
    decreases entries.len(),
{
    if entries.len() > 0 && entries[0].name != name {
        let rest = entries.drop_first();
        law_named_is_the_first(rest, name);
        if named(entries, name) is Some {
            let entry = named(entries, name)->0;
            let i = choose|i: int|
                #![trigger rest[i]]
                {
                    &&& 0 <= i < rest.len()
                    &&& rest[i] == entry
                    &&& rest[i].name == name
                    &&& forall|k: int| 0 <= k < i ==> (#[trigger] rest[k]).name != name
                };
            assert(entries[i + 1] == entry);
            assert forall|k: int| 0 <= k < i + 1 implies (#[trigger] entries[k]).name != name by {
                if k > 0 {
                    assert(rest[k - 1] == entries[k]);
                }
            }
        }
        if exists|i: int| 0 <= i < entries.len() && (#[trigger] entries[i]).name == name {
            let i = choose|i: int| 0 <= i < entries.len() && (#[trigger] entries[i]).name == name;
            assert(rest[i - 1] == entries[i]);
        }
    }
}

/// An entry with that name before which no other has it is the one found.
pub proof fn law_first_is_named(entries: Seq<EntryView>, name: Seq<char>, i: int)
    requires
        0 <= i < entries.len(),
        entries[i].name == name,
        forall|k: int| 0 <= k < i ==> (#[trigger] entries[k]).name != name,
    ensures
        named(entries, name) == Some(entries[i]),
    decreases entries.len(),
{
    if i > 0 {
        let rest = entries.drop_first();
        assert(entries[0].name != name);
        assert forall|k: int| 0 <= k < i - 1 implies (#[trigger] rest[k]).name != name by {
            assert(rest[k] == entries[k + 1]);
        }
        law_first_is_named(rest, name, i - 1);
    }
}

/// An item of a listing is where its entry is: its path leads through the
/// folder and on through the name of the entry. The rest is taken over from the
/// entry, but for a time that no date can hold; a recursive listing names the
/// item by the last piece.
pub proof fn law_listed_where_it_is(entry: EntryView, folder: Seq<char>, recursive: bool)
    ensures
        ({
            let item = listed(entry, folder, recursive);
            &&& folder.len() == 0 ==> item.path == entry.name
            &&& folder.len() > 0 ==> {
                &&& segments(item.path) == segments(folder) + segments(entry.name)
                &&& item.path.len() == folder.len() + 1 + entry.name.len()
                &&& begins(item.path, folder.push('/'))
                &&& item.path.skip(folder.len() as int + 1) == entry.name
            }
            &&& item.is_dir == entry.is_dir
            &&& item.name == (if recursive {
                segments(entry.name).last()
            } else {
                entry.name
            })
            &&& item.mod_time == (if -377705116800 <= entry.mod_time_unix <= 253402300799 {
                entry.mod_time_unix as int
            } else {
                0
            })
        }),
{
    let item = listed(entry, folder, recursive);
    law_basename_is_the_last_piece(entry.name);
    if folder.len() > 0 {
        reveal_strlit("/");
        assert("/"@ =~= seq!['/']);
        law_segments_at_a_slash(folder, entry.name);
        assert(item.path.subrange(0, folder.push('/').len() as int) =~= folder.push('/'));
        assert(item.path.skip(folder.len() as int + 1) =~= entry.name);
    }
}

/// A time that a date can hold is kept; any other is kept as the epoch.
pub proof fn law_times_are_kept(secs: i64)
    ensures
        -377705116800 <= secs <= 253402300799 ==> kept_time(secs) == secs,
        secs < -377705116800 || 253402300799 < secs ==> kept_time(secs) == 0,
{
}

/// What `stat` tells of an entry is what the entry tells of itself, at the path
/// that was asked for without its outer slashes; a nameless entry is named by
/// the last piece of that path.
pub proof fn law_described_as_found(entry: EntryView, path: Seq<char>)
    ensures
        described(entry, path).path == bare(path),
        described(entry, path).is_dir == entry.is_dir,
        entry.name.len() > 0 ==> described(entry, path).name == entry.name,
        entry.name.len() == 0 ==> described(entry, path).name == segments(bare(path)).last(),
        described(entry, path).mod_time == (if -377705116800 <= entry.mod_time_unix
            <= 253402300799 {
            entry.mod_time_unix as int
        } else {
            0
        }),
{
    law_basename_is_the_last_piece(bare(path));
}

/// An operation succeeds exactly where the call that it is about does, and hands
/// on the words of a failure; only a folder that was to be created and is there
/// already counts as created.
pub proof fn law_last_call_decides(
    path: Seq<char>,
    local: Seq<char>,
    link: Seq<char>,
    e: Seq<char>,
)
    ensures
        concluded(GoalView::Upload { local }, path, ReplyView::Link(Ok(link))) == AnswerView::Unit(
            Ok(()),
        ),
        concluded(GoalView::Upload { local }, path, ReplyView::Link(Err(e))) == AnswerView::Unit(
            Err(e),
        ),
        concluded(GoalView::Mkdir, path, ReplyView::Link(Ok(link))) == AnswerView::Unit(Ok(())),
        concluded(GoalView::Mkdir, path, ReplyView::Link(Err(e))) == AnswerView::Unit(
            if proton_event(Operation::Mkdir, e) is AlreadyExists {
                Ok(())
            } else {
                Err(e)
            },
        ),
        concluded(GoalView::Trash, path, ReplyView::Done(Ok(()))) == AnswerView::Unit(Ok(())),
        concluded(GoalView::Trash, path, ReplyView::Done(Err(e))) == AnswerView::Unit(Err(e)),
        concluded(GoalView::Download { local }, path, ReplyView::Done(Ok(()))) == AnswerView::Unit(
            Ok(()),
        ),
        concluded(GoalView::Download { local }, path, ReplyView::Done(Err(e))) == AnswerView::Unit(
            Err(e),
        ),
        concluded(GoalView::Stat, path, ReplyView::Entry(Err(e))) == AnswerView::Item(Err(e)),
        concluded(GoalView::Stat, path, ReplyView::Entry(Ok(None))) == AnswerView::Item(Ok(None)),
{
}

/// A `stat` answers with the entry at the link, told as found there.
pub proof fn law_stat_tells_what_is_there(path: Seq<char>, entry: EntryView)
    ensures
        concluded(GoalView::Stat, path, ReplyView::Entry(Ok(Some(entry)))) matches AnswerView::Item(
            Ok(Some(item)),
        ) && item == described(entry, path) && item.path == bare(path) && item.is_dir
            == entry.is_dir && (entry.name.len() > 0 ==> item.name == entry.name),
{
}

/// A listing answers with the entries, in their order and none twice: another
/// entry at the end adds one item at the end, where the filter wants its kind,
/// and changes nothing otherwise.
pub proof fn law_listing_tells_what_is_there(
    path: Seq<char>,
    recursive: bool,
    filter: ListFilter,
    entries: Seq<EntryView>,
    entry: EntryView,
    e: Seq<char>,
)
    ensures
        ({
            let goal = GoalView::List { recursive, filter };
            let none = concluded(goal, path, ReplyView::Entries(Ok(Seq::empty())));
            let before = concluded(goal, path, ReplyView::Entries(Ok(entries)));
            let after = concluded(goal, path, ReplyView::Entries(Ok(entries.push(entry))));
            let wanted = filter == ListFilter::All || (filter == ListFilter::Dirs && entry.is_dir)
                || (filter == ListFilter::Files && !entry.is_dir);
            &&& none == AnswerView::Items(Ok(Seq::empty()))
            &&& before matches AnswerView::Items(Ok(items)) && after == AnswerView::Items(
                Ok(
                    if wanted {
                        items.push(listed(entry, bare(path), recursive))
                    } else {
                        items
                    },
                ),
            )
            &&& concluded(goal, path, ReplyView::Entries(Err(e))) == AnswerView::Items(Err(e))
        }),
{
    assert(entries.push(entry).drop_last() =~= entries);
}

/// Where an operation on `name` in `folder` sets out for: one that creates goes
/// to the folder, however many slashes follow it, and creates `name` there; any
/// other goes on to `name`.
pub proof fn law_sets_out_for_the_path(goal: GoalView, folder: Seq<char>, name: Seq<char>)
    requires
        name.len() > 0,
        !name.contains('/'),
        folder.len() > 0,
        folder.first() != '/',
    ensures
        ({
            let path = folder + seq!['/'] + name;
            &&& start(goal, path) matches StepView::Call(job, CallView::RootLinkId) && job == (
            JobView {
                goal,
                path,
                base: if goal is Mkdir || goal is Upload {
                    name
                } else {
                    Seq::empty()
                },
                segments: if goal is Mkdir || goal is Upload {
                    segments(bare(folder))
                } else {
                    segments(folder).push(name)
                },
                stage: Stage::Root,
            })
            &&& start(goal, name) matches StepView::Call(job, CallView::RootLinkId) && job == (
            JobView {
                goal,
                path: name,
                base: if goal is Mkdir || goal is Upload {
                    name
                } else {
                    Seq::empty()
                },
                segments: if goal is Mkdir || goal is Upload {
                    Seq::empty()
                } else {
                    seq![name]
                },
                stage: Stage::Root,
            })
        }),
{
    let path = folder + seq!['/'] + name;
    assert(name.contains(name.first()));
    assert(name.contains(name.last()));
    assert(path.last() == name.last());
    assert(path.first() == folder.first());
    law_bare_already(path);
    law_bare_already(name);
    assert(bare(folder).len() > 0) by {
        law_not_all_slashes(folder);
    }
    law_child_of_a_folder(folder, name);
    law_segments_at_a_slash(folder, name);
    law_basename_is_the_last_piece(name);
    assert(segments(name).len() == 1) by {
        lemma_one_piece(name);
    }
    assert(segments(name) =~= seq![name]);
    assert(segments(folder) + segments(name) =~= segments(folder).push(name));
    assert(bare(Seq::<char>::empty()) =~= Seq::<char>::empty());
    assert(parent(name) =~= Seq::<char>::empty());
}

/// What holds no slash is one piece.
proof fn lemma_one_piece(name: Seq<char>)
    requires
        !name.contains('/'),
    ensures
        segments(name).len() == 1,
    decreases name.len(),
{
    if name.len() > 0 {
        assert(name.contains(name.last()));
        let most = name.drop_last();
        assert forall|c: char| most.contains(c) implies name.contains(c) by {
            let k = choose|k: int| 0 <= k < most.len() && most[k] == c;
            assert(name[k] == c);
        }
        lemma_one_piece(most);
    }
}

/// Slashes at the ends of a path change nothing of where an operation sets out
/// for, and the root itself can be neither created nor uploaded to.
pub proof fn law_start_without_outer_slashes(goal: GoalView, path: Seq<char>)
    ensures
        match (start(goal, path), start(goal, bare(path))) {
            (StepView::Call(a, _), StepView::Call(b, _)) => a.segments == b.segments && a.base
                == b.base && a.goal == b.goal && a.stage == b.stage,
            (StepView::Done(a), StepView::Done(b)) => a == b,
            _ => false,
        },
        start(goal, path) is Done <==> (goal is Mkdir || goal is Upload) && bare(path).len() == 0,
        start(goal, path) matches StepView::Done(answer) ==> answer == AnswerView::Unit(
            Err("cannot operate on root itself"@),
        ),
{
    law_trimmed_once(path, slash());
}

/// The call that an operation is about is made on the link it was led to, with
/// the name and the local path that it was asked for.
pub proof fn law_last_call_is_what_was_asked(
    base: Seq<char>,
    link: Seq<char>,
    local: Seq<char>,
    filter: ListFilter,
)
    ensures
        last_call(GoalView::Stat, base, link) == CallView::Stat(link),
        last_call(GoalView::List { recursive: true, filter }, base, link)
            == CallView::ListRecursive(link),
        last_call(GoalView::List { recursive: false, filter }, base, link)
            == CallView::ListDirectory(link),
        last_call(GoalView::Mkdir, base, link) == (CallView::CreateFolder {
            parent: link,
            name: base,
        }),
        last_call(GoalView::Trash, base, link) == CallView::TrashLink(link),
        last_call(GoalView::Upload { local }, base, link) == (CallView::UploadFile {
            parent: link,
            name: base,
            local,
        }),
        last_call(GoalView::Download { local }, base, link) == (CallView::DownloadFile {
            link,
            local,
        }),
{
}

/// Nothing of what an operation is about changes on its way: between two steps
/// only the stage does.
pub proof fn law_job_stays_the_same(job: JobView, reply: ReplyView, cancelled: bool)
    ensures
        job.next(reply, cancelled) matches StepView::Call(after, _) ==> after.goal == job.goal
            && after.path == job.path && after.base == job.base && after.segments == job.segments,
{
}

/// The way goes down by the first entry that has the name of the segment: into
/// the next listing, unless a request to stop has come, or, after the last
/// segment, to the call that the operation is about.
pub proof fn law_way_goes_down(job: JobView, at: usize, entries: Seq<EntryView>, i: int)
    requires
        job.stage == Stage::Listing(at),
        at < job.segments.len() <= usize::MAX,
        0 <= i < entries.len(),
        entries[i].name == job.segments[at as int],
        forall|k: int| 0 <= k < i ==> (#[trigger] entries[k]).name != job.segments[at as int],
    ensures
        at + 1 < job.segments.len() ==> job.next(ReplyView::Entries(Ok(entries)), false)
            == StepView::Call(
            JobView { stage: Stage::Listing((at + 1) as usize), ..job },
            CallView::ListDirectory(entries[i].link_id),
        ),
        at + 1 < job.segments.len() ==> job.next(ReplyView::Entries(Ok(entries)), true)
            == StepView::Done(
            match job.goal {
                GoalView::Stat => AnswerView::Item(Err("cancelled"@)),
                GoalView::List { .. } => AnswerView::Items(Err("cancelled"@)),
                _ => AnswerView::Unit(Err("cancelled"@)),
            },
        ),
        at + 1 == job.segments.len() ==> forall|cancelled: bool|
            (#[trigger] job.next(ReplyView::Entries(Ok(entries)), cancelled)) == StepView::Call(
                JobView { stage: Stage::Last, ..job },
                last_call(job.goal, job.base, entries[i].link_id),
            ),
{
    law_first_is_named(entries, job.segments[at as int], i);
}

/// From the root the way begins with the first segment; for the root itself
/// there is none, and the call that the operation is about comes at once.
pub proof fn law_way_begins_at_the_root(job: JobView, root: Seq<char>, cancelled: bool)
    requires
        job.stage == Stage::Root,
    ensures
        job.segments.len() == 0 ==> job.next(ReplyView::Link(Ok(root)), cancelled)
            == StepView::Call(
            JobView { stage: Stage::Last, ..job },
            last_call(job.goal, job.base, root),
        ),
        job.segments.len() > 0 ==> job.next(ReplyView::Link(Ok(root)), false) == StepView::Call(
            JobView { stage: Stage::Listing(0), ..job },
            CallView::ListDirectory(root),
        ),
{
}

/// Where no entry has the name of the segment, the way ends: `stat` finds
/// nothing, a listing is empty, and any other operation fails with words that
/// name the path.
pub proof fn law_way_ends_nowhere(
    job: JobView,
    at: usize,
    entries: Seq<EntryView>,
    cancelled: bool,
)
    requires
        job.stage == Stage::Listing(at),
        at < job.segments.len(),
        forall|k: int|
            0 <= k < entries.len() ==> (#[trigger] entries[k]).name != job.segments[at as int],
    ensures
        job.next(ReplyView::Entries(Ok(entries)), cancelled) == StepView::Done(
            match job.goal {
                GoalView::Stat => AnswerView::Item(Ok(None)),
                GoalView::List { .. } => AnswerView::Items(Ok(Seq::empty())),
                GoalView::Mkdir | GoalView::Upload { .. } => AnswerView::Unit(
                    Err("parent path '"@ + parent(bare(job.path)) + "' not found"@),
                ),
                GoalView::Trash | GoalView::Download { .. } => AnswerView::Unit(
                    Err("path '"@ + job.path + "' not found on remote"@),
                ),
            },
        ),
{
    law_named_is_the_first(entries, job.segments[at as int]);
}

/// A failure on the way is the answer, in its own words.
pub proof fn law_failure_is_passed_on(job: JobView, at: usize, e: Seq<char>, cancelled: bool)
    ensures
        ({
            let answer = match job.goal {
                GoalView::Stat => AnswerView::Item(Err(e)),
                GoalView::List { .. } => AnswerView::Items(Err(e)),
                _ => AnswerView::Unit(Err(e)),
            };
            &&& job.stage == Stage::Root ==> job.next(ReplyView::Link(Err(e)), cancelled)
                == StepView::Done(answer)
            &&& job.stage == Stage::Listing(at) ==> job.next(
                ReplyView::Entries(Err(e)),
                cancelled,
            ) == StepView::Done(answer)
        }),
{
}

/// A request to stop is heeded before each further listing, with an error of the
/// kind that the operation answers with.
pub proof fn law_stopped_before_a_listing(job: JobView, root: Seq<char>)
    requires
        job.stage == Stage::Root,
        job.segments.len() > 0,
    ensures
        job.next(ReplyView::Link(Ok(root)), true) == StepView::Done(
            match job.goal {
                GoalView::Stat => AnswerView::Item(Err("cancelled"@)),
                GoalView::List { .. } => AnswerView::Items(Err("cancelled"@)),
                _ => AnswerView::Unit(Err("cancelled"@)),
            },
        ),
{
}

/// The listing of `from` leads to `to` by `name`: the first entry of that name
/// has that link.
pub open spec fn steps_down(
    drive: spec_fn(CallView) -> ReplyView,
    from: Seq<char>,
    name: Seq<char>,
    to: Seq<char>,
) -> bool {
    drive(CallView::ListDirectory(from)) matches ReplyView::Entries(Ok(entries)) && exists|i: int|
        #![trigger entries[i]]
        {
            &&& 0 <= i < entries.len()
            &&& entries[i].name == name
            &&& entries[i].link_id == to
            &&& forall|k: int| 0 <= k < i ==> (#[trigger] entries[k]).name != name
        }
}

/// A walk along links that lead one to the next.
proof fn lemma_walked_along(
    drive: spec_fn(CallView) -> ReplyView,
    way: Seq<Seq<char>>,
    links: Seq<Seq<char>>,
)
    requires
        links.len() == way.len() + 1,
        forall|k: int|
            0 <= k < way.len() ==> #[trigger] steps_down(drive, links[k], way[k], links[k + 1]),
    ensures
        walked(drive, way, links[0]) == Ok::<Option<Seq<char>>, Seq<char>>(Some(links.last())),
    decreases way.len(),
{
    if way.len() > 0 {
        assert(steps_down(drive, links[0], way[0], links[0int + 1]));
        let entries = drive(CallView::ListDirectory(links[0]))->Entries_0->Ok_0;
        let i = choose|i: int|
            #![trigger entries[i]]
            {
                &&& 0 <= i < entries.len()
                &&& entries[i].name == way[0]
                &&& entries[i].link_id == links[1]
                &&& forall|k: int| 0 <= k < i ==> (#[trigger] entries[k]).name != way[0]
            };
        law_first_is_named(entries, way[0], i);
        let rest = way.drop_first();
        let on = links.drop_first();
        assert forall|k: int| 0 <= k < rest.len() implies #[trigger] steps_down(
            drive,
            on[k],
            rest[k],
            on[k + 1],
        ) by {
            assert(steps_down(drive, links[k + 1], way[k + 1], links[k + 1 + 1]));
        }
        lemma_walked_along(drive, rest, on);
        assert(on[0] == links[1]);
    }
}

/// An operation reaches what its path names. Where the links of the drive lead
/// one to the next by the segments of the way, from the root on, the operation
/// comes to what the call that it is about, made on the last link, is answered
/// with.
pub proof fn law_path_leads_to_the_link(
    drive: spec_fn(CallView) -> ReplyView,
    goal: GoalView,
    path: Seq<char>,
    links: Seq<Seq<char>>,
    calls: nat,
)
    requires
        forall|call: CallView| fits(call, #[trigger] drive(call)),
        start(goal, path) matches StepView::Call(job, _) && {
            &&& links.len() == job.segments.len() + 1
            &&& job.segments.len() <= usize::MAX
            &&& forall|k: int|
                0 <= k < job.segments.len() ==> #[trigger] steps_down(
                    drive,
                    links[k],
                    job.segments[k],
                    links[k + 1],
                )
        },
        drive(CallView::RootLinkId) == ReplyView::Link(Ok(links[0])),
        calls > links.len(),
    ensures
        start(goal, path) matches StepView::Call(job, _) && run(start(goal, path), drive, calls)
            == Some(
            concluded(
                goal,
                path,
                drive(
                    match goal {
                        GoalView::Stat => CallView::Stat(links.last()),
                        GoalView::List { recursive, .. } => if recursive {
                            CallView::ListRecursive(links.last())
                        } else {
                            CallView::ListDirectory(links.last())
                        },
                        GoalView::Mkdir => CallView::CreateFolder {
                            parent: links.last(),
                            name: job.base,
                        },
                        GoalView::Trash => CallView::TrashLink(links.last()),
                        GoalView::Upload { local } => CallView::UploadFile {
                            parent: links.last(),
                            name: job.base,
                            local,
                        },
                        GoalView::Download { local } => CallView::DownloadFile {
                            link: links.last(),
                            local,
                        },
                    },
                ),
            ),
        ),
{
    match start(goal, path) {
        StepView::Done(_) => {},
        StepView::Call(job, call) => {
            assert(fits(call, drive(call)));
            assert(job.segments.skip(0) =~= job.segments);
            lemma_walked_along(drive, job.segments, links);
            lemma_walk(job, drive, 0, links[0], (calls - 1) as nat);
        },
    }
}

/// Of a call and of an item everything is told.
pub proof fn law_call_and_item_are_told_whole(
    link: String,
    name: String,
    local: String,
    item: RemoteItem,
)
    ensures
        Call::RootLinkId@ == CallView::RootLinkId,
        Call::ListDirectory(link)@ == CallView::ListDirectory(link@),
        Call::ListRecursive(link)@ == CallView::ListRecursive(link@),
        Call::Stat(link)@ == CallView::Stat(link@),
        Call::TrashLink(link)@ == CallView::TrashLink(link@),
        (Call::CreateFolder { parent: link, name })@ == (CallView::CreateFolder {
            parent: link@,
            name: name@,
        }),
        (Call::UploadFile { parent: link, name, local })@ == (CallView::UploadFile {
            parent: link@,
            name: name@,
            local: local@,
        }),
        (Call::DownloadFile { link, local })@ == (CallView::DownloadFile {
            link: link@,
            local: local@,
        }),
        item@.path == item.path@ && item@.name == item.name@ && item@.is_dir == item.is_dir
            && item@.mod_time == item.mod_time,
{
}

/// Of an answer everything is told: what it is on, whether it is one, and its
/// words where it is none.
pub proof fn law_answer_is_told_whole(item: RemoteItem, items: Vec<RemoteItem>, e: String)
    ensures
        Answer::Item(Ok(Some(item)))@ == AnswerView::Item(Ok(Some(item@))),
        Answer::Item(Ok(None))@ == AnswerView::Item(Ok(None)),
        Answer::Item(Err(e))@ == AnswerView::Item(Err(e@)),
        Answer::Items(Ok(items))@ == AnswerView::Items(Ok(items.deep_view())),
        Answer::Items(Err(e))@ == AnswerView::Items(Err(e@)),
        Answer::Unit(Ok(()))@ == AnswerView::Unit(Ok(())),
        Answer::Unit(Err(e))@ == AnswerView::Unit(Err(e@)),
{
}

} // verus!
