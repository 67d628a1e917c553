//! The page of one remote: its synced directories, what is left out of them,
//! and the dialog that asks before something is deleted.

use crate::domain::remote::{Remote, RemoteId};
use crate::domain::run_state::RunState;
use crate::domain::sync::{SyncDir, SyncDirExclusion, SyncDirExclusionId, SyncDirId};
use crate::text::{
    as_folder, begins, chars_of, decimal, folder_prefix, join3, law_begins_is_transitive, same,
    slice_of, starts_with, to_decimal, to_two_digits, two_digits,
};
use std::collections::HashMap;
use std::time::Duration;
use vstd::prelude::*;
use vstd::string::*;

verus! {

/// How many lines the log of a synced directory holds; older ones are dropped.
pub const MAX_LOG_LINES: usize = 200;

/// What is said of a countdown that is in backoff.
pub const BACKOFF_NOTE: &'static str =
    "Backoff active — the provider returned rate-limit warnings on the last pass, so Celeste will skip the next cycles before trying again. The more consecutive degraded passes, the more cycles are skipped. Resets on the next clean pass.";

/// What is said of a remote that needs a login.
pub const REAUTH_NOTE: &'static str =
    "⚠ This remote's session isn't loaded. Sync is paused until you reauthenticate. Your sync directories, exclusions, and schedule will be preserved.";

/// The whole seconds of a duration.
pub uninterp spec fn whole_seconds(d: Duration) -> u64;

/// Stands for `Duration::as_secs`, which counts the whole seconds of the
/// duration and drops what is left of them. The count depends on the duration
/// alone and is called `whole_seconds` here.
pub assume_specification[ Duration::as_secs ](d: &Duration) -> (r: u64)
    ensures
        r == whole_seconds(*d),
;

/// So many seconds in words: hours and minutes, or minutes and seconds, or
/// seconds, with two digits for the smaller unit.
pub open spec fn seconds_words(secs: nat) -> Seq<char> {
    if secs >= 3600 {
        decimal(secs / 3600) + "h"@ + two_digits(secs / 60 % 60) + "m"@
    } else if secs >= 60 {
        decimal(secs / 60) + "m"@ + two_digits(secs % 60) + "s"@
    } else {
        decimal(secs) + "s"@
    }
}

/// So many seconds in words.
pub fn format_seconds(secs: u64) -> (r: String)
    ensures
        r@ == seconds_words(secs as nat),
{
    let minutes: u64 = secs / 60;
    let hours: u64 = minutes / 60;
    let mut out;
    if hours > 0 {
        out = to_decimal(hours as u128);
        out.append("h");
        out.append(to_two_digits((minutes % 60) as u128).as_str());
        out.append("m");
    } else if minutes > 0 {
        out = to_decimal(minutes as u128);
        out.append("m");
        out.append(to_two_digits((secs % 60) as u128).as_str());
        out.append("s");
    } else {
        out = to_decimal(secs as u128);
        out.append("s");
    }
    out
}

/// A duration in words.
pub fn format_duration(d: Duration) -> (r: String)
    ensures
        r@ == seconds_words(whole_seconds(d) as nat),
{
    format_seconds(d.as_secs())
}

/// The remote path of `candidate` lies below that of `ancestor`. Everything but
/// the root lies below the root, which is the empty path.
pub open spec fn below(ancestor: Seq<char>, candidate: Seq<char>) -> bool {
    if ancestor.len() == 0 {
        candidate.len() > 0
    } else {
        candidate != ancestor && begins(candidate, as_folder(ancestor))
    }
}

/// Whether the remote path of `candidate` lies below that of `ancestor`.
pub fn is_remote_descendant(ancestor: &SyncDir, candidate: &SyncDir) -> (r: bool)
    ensures
        r == below(ancestor.remote_path@, candidate.remote_path@),
{
    let above = ancestor.remote_path.as_str();
    let path = candidate.remote_path.as_str();
    if above.is_empty() {
        !path.is_empty()
    } else {
        !same(path, above) && starts_with(path, folder_prefix(above).as_str())
    }
}

/// A synced directory that is left out of `sd` of its own accord: another one
/// of the same remote, whose remote path lies below.
pub open spec fn nested_in(sd: SyncDir) -> spec_fn(SyncDir) -> bool {
    |d: SyncDir|
        d.id != sd.id && d.remote_id == sd.remote_id && below(sd.remote_path@, d.remote_path@)
}

/// The directories of `all` that are left out of `sd` of their own accord.
pub open spec fn auto_excluded(sd: SyncDir, all: Seq<SyncDir>) -> Seq<SyncDir> {
    all.filter(nested_in(sd))
}

/// The directories of `all` that are left out of `sd` of their own accord, in
/// their order.
pub fn auto_excluded_for<'a>(sd: &SyncDir, all: &'a Vec<SyncDir>) -> (r: Vec<&'a SyncDir>)
    ensures
        r@.unref() == auto_excluded(*sd, all@),
{
    let mut out: Vec<&'a SyncDir> = Vec::new();
    let mut i: usize = 0;
    assert(out@.unref() =~= all@.take(0).filter(nested_in(*sd))) by {
        reveal(Seq::filter);
    }
    while i < all.len()
        invariant
            i <= all@.len(),
            out@.unref() == all@.take(i as int).filter(nested_in(*sd)),
        decreases all@.len() - i,
    {
        let d = &all[i];
        let ghost seen = out@.unref();
        assert(all@.take(i + 1).drop_last() =~= all@.take(i as int));
        proof {
            reveal(Seq::filter);
        }
        if d.id != sd.id && d.remote_id == sd.remote_id && is_remote_descendant(sd, d) {
            out.push(d);
            assert(out@.unref() =~= seen.push(*d));
        }
        i += 1;
    }
    assert(all@.take(all@.len() as int) =~= all@);
    out
}

/// No path lies below itself, and what lies below something that lies below a
/// path lies below that path.
pub proof fn law_below_is_strict_order(a: Seq<char>, b: Seq<char>, c: Seq<char>)
    ensures
        !below(a, a),
        below(a, b) && below(b, c) ==> below(a, c),
        below(a, b) ==> !below(b, a),
{
    if below(a, b) && below(b, c) {
        lemma_below_again(a, b, c);
    }
    if below(a, b) && below(b, a) {
        lemma_below_again(a, b, a);
    }
}

/// What lies below something that lies below a path lies below that path.
proof fn lemma_below_again(a: Seq<char>, b: Seq<char>, c: Seq<char>)
    requires
        below(a, b),
        below(b, c),
    ensures
        below(a, c),
{
    assert(b.len() > 0);
    assert(as_folder(b).subrange(0, b.len() as int) =~= b);
    law_begins_is_transitive(c, as_folder(b), b);
    if a.len() > 0 {
        law_begins_is_transitive(c, b, as_folder(a));
        if c == a {
            assert(b.subrange(0, as_folder(a).len() as int) =~= b);
        }
    }
}

/// What the page reports. `Settings` and `LogEditorAction` carry what the
/// settings panel and the log editor report, which nothing here looks into.
#[derive(Clone, Debug, PartialEq, Eq)]
pub enum Msg<X> {
    RefreshNow(RemoteId),
    Back,
    Settings(X),
    DraftLocalPathChanged(String),
    DraftRemotePathChanged(String),
    AddSyncDir,
    /// Asks before the link between the two paths is deleted.
    RequestDeleteSyncDir(String, String),
    DeleteSyncDir(String, String),
    /// Asks before the remote is deleted.
    RequestDeleteRemote(RemoteId, String),
    DeleteRemote(RemoteId, String),
    /// The answer is yes.
    ConfirmDelete,
    /// The answer is no.
    CancelDelete,
    ToggleExclusions(SyncDirId),
    DraftExclusionChanged(SyncDirId, String),
    AddExclusion(SyncDirId),
    RemoveExclusion(SyncDirExclusionId, SyncDirId),
    Reauthenticate(RemoteId, String),
    LogEditorAction(SyncDirId, X),
}

/// What is about to be deleted, while the dialog asks.
#[derive(Clone, Debug, PartialEq, Eq)]
pub enum PendingDelete {
    Remote(RemoteId, String),
    SyncDir { local: String, remote: String },
}

/// A [`PendingDelete`] as a mathematical value.
pub enum PendingDeleteView {
    Remote(RemoteId, Seq<char>),
    SyncDir { local: Seq<char>, remote: Seq<char> },
}

impl View for PendingDelete {
    type V = PendingDeleteView;

    open spec fn view(&self) -> PendingDeleteView {
        match self {
            PendingDelete::Remote(id, name) => PendingDeleteView::Remote(*id, name@),
            PendingDelete::SyncDir { local, remote } => PendingDeleteView::SyncDir {
                local: local@,
                remote: remote@,
            },
        }
    }
}

impl DeepView for PendingDelete {
    type V = PendingDeleteView;

    open spec fn deep_view(&self) -> PendingDeleteView {
        self@
    }
}

/// The text of a dialog.
#[derive(Debug, PartialEq, Eq)]
pub struct Dialog {
    pub title: String,
    pub body: String,
}

/// A [`Dialog`] as a mathematical value.
pub struct DialogView {
    pub title: Seq<char>,
    pub body: Seq<char>,
}

impl View for Dialog {
    type V = DialogView;

    open spec fn view(&self) -> DialogView {
        DialogView { title: self.title@, body: self.body@ }
    }
}

impl DeepView for Dialog {
    type V = DialogView;

    open spec fn deep_view(&self) -> DialogView {
        self@
    }
}

/// A remote path as the user sees it: the root is a slash.
pub open spec fn displayed(path: Seq<char>) -> Seq<char> {
    if path.len() == 0 {
        "/"@
    } else {
        path
    }
}

/// A remote path as the user sees it.
fn display_path(path: &str) -> (r: &str)
    ensures
        r@ == displayed(path@),
{
    if path.is_empty() {
        "/"
    } else {
        path
    }
}

/// A local and a remote path, tied by an arrow.
pub open spec fn tied(local: Seq<char>, remote: Seq<char>) -> Seq<char> {
    "\""@ + local + "\" → \""@ + displayed(remote) + "\""@
}

/// A local and a remote path, tied by an arrow.
fn tie(local: &str, remote: &str) -> (r: String)
    ensures
        r@ == tied(local@, remote@),
{
    let mut out = join3("\"", local, "\" → \"");
    out.append(display_path(remote));
    out.append("\"");
    out
}

/// What the dialog asks before `pending` is deleted.
pub open spec fn question(pending: PendingDeleteView) -> DialogView {
    match pending {
        PendingDeleteView::Remote(_, name) => DialogView {
            title: "Delete remote?"@,
            body: "Are you sure you want to delete the remote \""@ + name
                + "\"? All sync directories for this remote will be removed and syncing will stop. Local files are preserved."@,
        },
        PendingDeleteView::SyncDir { local, remote } => DialogView {
            title: "Delete sync directory?"@,
            body: "Are you sure you want to delete the sync directory "@ + tied(local, remote)
                + "? Local and remote files are preserved; only the link between them is removed."@,
        },
    }
}

/// What the dialog asks before `pending` is deleted.
pub fn confirm_delete(pending: &PendingDelete) -> (r: Dialog)
    ensures
        r@ == question(pending@),
{
    match pending {
        PendingDelete::Remote(_, name) => Dialog {
            title: "Delete remote?".to_owned(),
            body: join3(
                "Are you sure you want to delete the remote \"",
                name.as_str(),
                "\"? All sync directories for this remote will be removed and syncing will stop. Local files are preserved.",
            ),
        },
        PendingDelete::SyncDir { local, remote } => Dialog {
            title: "Delete sync directory?".to_owned(),
            body: join3(
                "Are you sure you want to delete the sync directory ",
                tie(local.as_str(), remote.as_str()).as_str(),
                "? Local and remote files are preserved; only the link between them is removed.",
            ),
        },
    }
}

/// `path` as seen from the directory `base`: without the directory and a slash,
/// where it begins with them.
pub open spec fn relative(base: Seq<char>, path: Seq<char>) -> Seq<char> {
    let prefix = base.push('/');
    if base.len() > 0 && begins(path, prefix) {
        path.skip(prefix.len() as int)
    } else {
        path
    }
}

/// `path` as seen from the directory `base`.
fn relative_path(base: &str, path: &str) -> (r: String)
    ensures
        r@ == relative(base@, path@),
{
    let mut prefix = base.to_owned();
    prefix.push('/');
    if !base.is_empty() && starts_with(path, prefix.as_str()) {
        let chars = chars_of(path);
        let len = chars_of(prefix.as_str()).len();
        let rest = slice_of(&chars, len, chars.len());
        assert(rest@ =~= path@.skip(len as int));
        rest
    } else {
        path.to_owned()
    }
}

/// A path in an exclusion panel.
pub open spec fn listed(path: Seq<char>) -> Seq<char> {
    "  \""@ + path + "\""@
}

/// The panel of what is left out of a directory. The first list is of its own
/// accord; the entries of the second can be removed.
#[derive(Debug, PartialEq, Eq)]
pub struct Panel {
    pub automatic: Vec<String>,
    pub custom: Vec<(SyncDirExclusionId, String)>,
    /// Nothing is left out.
    pub nothing: bool,
    pub draft: String,
}

/// A [`Panel`] as a mathematical value.
#[verifier::ext_equal]
pub struct PanelView {
    pub automatic: Seq<Seq<char>>,
    pub custom: Seq<(SyncDirExclusionId, Seq<char>)>,
    pub nothing: bool,
    pub draft: Seq<char>,
}

impl View for Panel {
    type V = PanelView;

    open spec fn view(&self) -> PanelView {
        PanelView {
            automatic: self.automatic.deep_view(),
            custom: self.custom@.map_values(|c: (SyncDirExclusionId, String)| (c.0, c.1@)),
            nothing: self.nothing,
            draft: self.draft@,
        }
    }
}

impl DeepView for Panel {
    type V = PanelView;

    open spec fn deep_view(&self) -> PanelView {
        self@
    }
}

/// The panel of the directory `sd`.
pub open spec fn panel(
    sd: SyncDir,
    automatic: Seq<SyncDir>,
    custom: Seq<SyncDirExclusion>,
    draft: Seq<char>,
) -> PanelView {
    PanelView {
        automatic: automatic.map_values(
            |d: SyncDir| listed(relative(sd.remote_path@, d.remote_path@)),
        ),
        custom: custom.map_values(|e: SyncDirExclusion| (e.id, listed(e.remote_path@))),
        nothing: automatic.len() == 0 && custom.len() == 0,
        draft,
    }
}

/// The panel of the directory `sd`: the directories that are left out of their
/// own accord by their path on the remote, seen from `sd`, and what the user
/// left out.
pub fn exclusion_panel_view(
    sd: &SyncDir,
    auto_excl: &Vec<&SyncDir>,
    custom_excl: &Vec<SyncDirExclusion>,
    draft: &str,
) -> (r: Panel)
    ensures
        r@ == panel(*sd, auto_excl@.unref(), custom_excl@, draft@),
{
    let ghost wanted = panel(*sd, auto_excl@.unref(), custom_excl@, draft@);
    let mut automatic: Vec<String> = Vec::new();
    let mut i: usize = 0;
    while i < auto_excl.len()
        invariant
            i <= auto_excl@.len(),
            automatic.deep_view().len() == i,
            wanted == panel(*sd, auto_excl@.unref(), custom_excl@, draft@),
            forall|k: int|
                0 <= k < i ==> #[trigger] automatic.deep_view()[k] == wanted.automatic[k],
        decreases auto_excl@.len() - i,
    {
        let rel = relative_path(sd.remote_path.as_str(), auto_excl[i].remote_path.as_str());
        let ghost seen = automatic.deep_view();
        automatic.push(join3("  \"", rel.as_str(), "\""));
        assert(automatic.deep_view() =~= seen.push(wanted.automatic[i as int]));
        i += 1;
    }
    let mut custom: Vec<(SyncDirExclusionId, String)> = Vec::new();
    let mut j: usize = 0;
    while j < custom_excl.len()
        invariant
            j <= custom_excl@.len(),
            custom@.len() == j,
            wanted == panel(*sd, auto_excl@.unref(), custom_excl@, draft@),
            forall|k: int|
                0 <= k < j ==> (#[trigger] custom@[k].0, custom@[k].1@) == wanted.custom[k],
        decreases custom_excl@.len() - j,
    {
        let e = &custom_excl[j];
        custom.push((e.id, join3("  \"", e.remote_path.as_str(), "\"")));
        j += 1;
    }
    let r = Panel {
        automatic,
        custom,
        nothing: auto_excl.len() == 0 && custom_excl.len() == 0,
        draft: draft.to_owned(),
    };
    assert(r@.automatic =~= wanted.automatic);
    assert(r@.custom =~= wanted.custom);
    r
}

/// Where a path begins with a directory and a slash, these and what is seen of
/// the path from there are the path. Any other path is seen whole.
pub proof fn law_relative_path(base: Seq<char>, path: Seq<char>)
    ensures
        base.len() > 0 && begins(path, base.push('/')) ==> base.push('/') + relative(base, path)
            == path,
        base.len() == 0 || !begins(path, base.push('/')) ==> relative(base, path) == path,
{
    let prefix = base.push('/');
    if base.len() > 0 && begins(path, prefix) {
        assert(path.subrange(0, prefix.len() as int) == prefix);
        assert(prefix + path.skip(prefix.len() as int) =~= path);
    }
}

/// When the next pass is due.
#[derive(Debug, PartialEq, Eq)]
pub struct Countdown {
    pub label: String,
    /// The provider limits the rate, so passes are skipped.
    pub in_backoff: bool,
}

/// A [`Countdown`] as a mathematical value.
pub struct CountdownView {
    pub label: Seq<char>,
    pub in_backoff: bool,
}

impl View for Countdown {
    type V = CountdownView;

    open spec fn view(&self) -> CountdownView {
        CountdownView { label: self.label@, in_backoff: self.in_backoff }
    }
}

/// What is said of the next pass, which is due in so long, or never.
pub open spec fn counted(eta: Option<(Duration, bool)>) -> CountdownView {
    match eta {
        Some((remaining, in_backoff)) => CountdownView {
            label: "next sync in "@ + seconds_words(whole_seconds(remaining) as nat),
            in_backoff,
        },
        None => CountdownView { label: "paused"@, in_backoff: false },
    }
}

/// What is said of the next pass.
pub fn countdown(next_sync_eta: Option<(Duration, bool)>) -> (r: Countdown)
    ensures
        r@ == counted(next_sync_eta),
{
    match next_sync_eta {
        Some((remaining, in_backoff)) => {
            let mut label = "next sync in ".to_owned();
            label.append(format_duration(remaining).as_str());
            Countdown { label, in_backoff }
        },
        None => Countdown { label: "paused".to_owned(), in_backoff: false },
    }
}

/// The card of one synced directory.
#[derive(Debug, PartialEq, Eq)]
pub struct Card {
    pub id: SyncDirId,
    pub icon_state: Option<RunState>,
    pub path_label: String,
    pub excluded_label: String,
    pub local_path: String,
    pub remote_path: String,
    pub panel: Option<Panel>,
}

/// A [`Card`] as a mathematical value.
#[verifier::ext_equal]
pub struct CardView {
    pub id: SyncDirId,
    pub icon_state: Option<RunState>,
    pub path_label: Seq<char>,
    pub excluded_label: Seq<char>,
    pub local_path: Seq<char>,
    pub remote_path: Seq<char>,
    pub panel: Option<PanelView>,
}

impl View for Card {
    type V = CardView;

    open spec fn view(&self) -> CardView {
        CardView {
            id: self.id,
            icon_state: self.icon_state,
            path_label: self.path_label@,
            excluded_label: self.excluded_label@,
            local_path: self.local_path@,
            remote_path: self.remote_path@,
            panel: self.panel.deep_view(),
        }
    }
}

impl DeepView for Card {
    type V = CardView;

    open spec fn deep_view(&self) -> CardView {
        self@
    }
}

/// What the page knows of the directories of its remote, by the key of each.
pub struct Known<'a> {
    pub all_known_sync_dirs: &'a Vec<SyncDir>,
    pub status: &'a HashMap<i64, RunState>,
    pub exclusion_panel: Option<SyncDirId>,
    pub exclusions: &'a HashMap<i64, Vec<SyncDirExclusion>>,
    pub draft_exclusion: &'a HashMap<i64, String>,
    pub needs_reauth: bool,
}

/// What the user left out of the directory `id`.
pub open spec fn custom_of(
    exclusions: Map<i64, Vec<SyncDirExclusion>>,
    id: SyncDirId,
) -> Seq<SyncDirExclusion> {
    if exclusions.contains_key(id.0) {
        exclusions[id.0]@
    } else {
        Seq::empty()
    }
}

/// The text in the form that leaves something out of the directory `id`.
pub open spec fn draft_of(drafts: Map<i64, String>, id: SyncDirId) -> Seq<char> {
    if drafts.contains_key(id.0) {
        drafts[id.0]@
    } else {
        Seq::empty()
    }
}

impl Known<'_> {
    /// The badge of the directory `id`: where it stands, or that the remote
    /// needs a login, which holds up all of its directories.
    pub open spec fn badge_of(self, id: SyncDirId) -> Option<RunState> {
        if self.needs_reauth {
            Some(RunState::AuthNeeded)
        } else if self.status@.contains_key(id.0) {
            Some(self.status@[id.0])
        } else {
            None
        }
    }

    /// The card of `sd`. Its panel is open for at most one directory.
    pub open spec fn card(self, sd: SyncDir) -> CardView {
        let automatic = auto_excluded(sd, self.all_known_sync_dirs@);
        let custom = custom_of(self.exclusions@, sd.id);
        CardView {
            id: sd.id,
            icon_state: self.badge_of(sd.id),
            path_label: tied(sd.local_path@, sd.remote_path@),
            excluded_label: "Excluded ("@ + decimal(automatic.len() + custom.len()) + ")"@,
            local_path: sd.local_path@,
            remote_path: sd.remote_path@,
            panel: if self.exclusion_panel == Some(sd.id) {
                Some(panel(sd, automatic, custom, draft_of(self.draft_exclusion@, sd.id)))
            } else {
                None
            },
        }
    }

    /// The card of `sd`.
    pub fn card_of(&self, sd: &SyncDir) -> (r: Card)
        ensures
            r@ == self.card(*sd),
    {
        broadcast use vstd::std_specs::hash::group_hash_axioms;

        let automatic = auto_excluded_for(sd, self.all_known_sync_dirs);
        assert(automatic@.unref().len() == automatic@.len());
        let none: Vec<SyncDirExclusion> = Vec::new();
        let custom: &Vec<SyncDirExclusion> = match self.exclusions.get(&sd.id.0) {
            Some(v) => v,
            None => &none,
        };
        assert(custom@ =~= custom_of(self.exclusions@, sd.id));
        let icon_state = if self.needs_reauth {
            Some(RunState::AuthNeeded)
        } else {
            match self.status.get(&sd.id.0) {
                Some(s) => Some(*s),
                None => None,
            }
        };
        let total: u128 = automatic.len() as u128 + custom.len() as u128;
        let shown: bool = match self.exclusion_panel {
            Some(id) => id == sd.id,
            None => false,
        };
        let opened = if shown {
            let draft: &str = match self.draft_exclusion.get(&sd.id.0) {
                Some(d) => d.as_str(),
                None => "",
            };
            proof {
                reveal_strlit("");
                assert(draft@ =~= draft_of(self.draft_exclusion@, sd.id));
            }
            Some(exclusion_panel_view(sd, &automatic, custom, draft))
        } else {
            None
        };
        Card {
            id: sd.id,
            icon_state,
            path_label: tie(sd.local_path.as_str(), sd.remote_path.as_str()),
            excluded_label: join3("Excluded (", to_decimal(total).as_str(), ")"),
            local_path: sd.local_path.clone(),
            remote_path: sd.remote_path.clone(),
            panel: opened,
        }
    }
}

/// Everything that the page of a remote shows, but for the log and the
/// settings.
#[derive(Debug, PartialEq, Eq)]
pub struct Page {
    pub remote: RemoteId,
    pub name: String,
    pub countdown: Countdown,
    /// The remote needs a login before it is synced again.
    pub reauth_banner: bool,
    /// There is no directory yet.
    pub no_directories: bool,
    pub cards: Vec<Card>,
    pub draft_local: String,
    pub draft_remote: String,
    pub dialog: Option<Dialog>,
}

/// A [`Page`] as a mathematical value.
#[verifier::ext_equal]
pub struct PageView {
    pub remote: RemoteId,
    pub name: Seq<char>,
    pub countdown: CountdownView,
    pub reauth_banner: bool,
    pub no_directories: bool,
    pub cards: Seq<CardView>,
    pub draft_local: Seq<char>,
    pub draft_remote: Seq<char>,
    pub dialog: Option<DialogView>,
}

impl View for Page {
    type V = PageView;

    open spec fn view(&self) -> PageView {
        PageView {
            remote: self.remote,
            name: self.name@,
            countdown: self.countdown@,
            reauth_banner: self.reauth_banner,
            no_directories: self.no_directories,
            cards: self.cards.deep_view(),
            draft_local: self.draft_local@,
            draft_remote: self.draft_remote@,
            dialog: self.dialog.deep_view(),
        }
    }
}

/// The page of `remote`.
pub open spec fn page(
    remote: Remote,
    sync_dirs: Seq<SyncDir>,
    known: Known<'_>,
    draft_local: Seq<char>,
    draft_remote: Seq<char>,
    eta: Option<(Duration, bool)>,
    pending: Option<PendingDeleteView>,
) -> PageView {
    PageView {
        remote: remote.id,
        name: remote.name@,
        countdown: counted(eta),
        reauth_banner: known.needs_reauth,
        no_directories: sync_dirs.len() == 0,
        cards: sync_dirs.map_values(|sd: SyncDir| known.card(sd)),
        draft_local,
        draft_remote,
        dialog: match pending {
            Some(p) => Some(question(p)),
            None => None,
        },
    }
}

/// The page of `remote`, whose directories are `sync_dirs`. `draft` is the text
/// in the form that adds a directory; `pending_delete` is what a dialog asks
/// about, on top of the page.
pub fn view(
    remote: &Remote,
    sync_dirs: &Vec<SyncDir>,
    known: &Known<'_>,
    draft: (&str, &str),
    next_sync_eta: Option<(Duration, bool)>,
    pending_delete: &Option<PendingDelete>,
) -> (r: Page)
    ensures
        r@ == page(
            *remote,
            sync_dirs@,
            *known,
            draft.0@,
            draft.1@,
            next_sync_eta,
            pending_delete.deep_view(),
        ),
{
    let mut cards: Vec<Card> = Vec::new();
    let mut i: usize = 0;
    while i < sync_dirs.len()
        invariant
            i <= sync_dirs@.len(),
            cards.deep_view().len() == i,
            forall|k: int|
                0 <= k < i ==> #[trigger] cards.deep_view()[k] == known.card(sync_dirs@[k]),
        decreases sync_dirs@.len() - i,
    {
        let ghost seen = cards.deep_view();
        let card = known.card_of(&sync_dirs[i]);
        cards.push(card);
        assert(cards.deep_view() =~= seen.push(known.card(sync_dirs@[i as int])));
        i += 1;
    }
    assert(cards.deep_view() =~= sync_dirs@.map_values(|sd: SyncDir| known.card(sd)));
    let dialog = match pending_delete {
        Some(p) => Some(confirm_delete(p)),
        None => None,
    };
    Page {
        remote: remote.id,
        name: remote.name.clone(),
        countdown: countdown(next_sync_eta),
        reauth_banner: known.needs_reauth,
        no_directories: sync_dirs.len() == 0,
        cards,
        draft_local: draft.0.to_owned(),
        draft_remote: draft.1.to_owned(),
        dialog,
    }
}

/// At most one directory has its panel open, where no two have the same key;
/// its badge counts the lines of the panel.
pub proof fn law_panel(known: Known<'_>, a: SyncDir, b: SyncDir)
    ensures
        known.card(a).panel is Some && known.card(b).panel is Some ==> a.id == b.id,
        known.card(a).panel matches Some(p) ==> {
            &&& known.card(a).excluded_label == "Excluded ("@ + decimal(
                p.automatic.len() + p.custom.len(),
            ) + ")"@
            &&& p.nothing <==> p.automatic.len() + p.custom.len() == 0
        },
{
}

/// A remote that needs a login shows so on every card, whatever its directories
/// stand at.
pub proof fn law_login_holds_up_all(known: Known<'_>, sd: SyncDir)
    requires
        known.needs_reauth,
    ensures
        known.card(sd).icon_state == Some(RunState::AuthNeeded),
{
}

/// The hours and the minutes of so many seconds.
proof fn lemma_hours_and_minutes(secs: nat)
    ensures
        secs / 60 % 60 < 60,
        3600 * (secs / 3600) + 60 * (secs / 60 % 60) <= secs,
        secs < 3600 * (secs / 3600) + 60 * (secs / 60 % 60) + 60,
{
    let n: nat = secs / 60;
    assert(60 * n <= secs < 60 * n + 60);
    assert(n == 60 * (n / 60) + n % 60);
    assert(3600 * (n / 60) <= secs < 3600 * (n / 60) + 3600);
    assert(secs / 3600 == n / 60);
}

/// The words for so many seconds tell the time: hours and minutes that are less
/// than a minute short of it, or minutes and seconds that are exactly it, or
/// the seconds.
pub proof fn law_words_tell_the_time(secs: nat)
    ensures
        secs >= 3600 ==> exists|h: nat, m: nat|
            {
                &&& m < 60
                &&& 3600 * h + 60 * m <= secs < 3600 * h + 60 * m + 60
                &&& seconds_words(secs) == #[trigger] decimal(h) + "h"@ + #[trigger] two_digits(m)
                    + "m"@
            },
        60 <= secs < 3600 ==> exists|m: nat, s: nat|
            {
                &&& 0 < m < 60 && s < 60
                &&& 60 * m + s == secs
                &&& seconds_words(secs) == #[trigger] decimal(m) + "m"@ + #[trigger] two_digits(s)
                    + "s"@
            },
        secs < 60 ==> seconds_words(secs) == decimal(secs) + "s"@,
{
    if secs >= 3600 {
        let h: nat = secs / 3600;
        let m: nat = secs / 60 % 60;
        lemma_hours_and_minutes(secs);
        assert(seconds_words(secs) == decimal(h) + "h"@ + two_digits(m) + "m"@);
    } else if secs >= 60 {
        let m: nat = secs / 60;
        let s: nat = secs % 60;
        assert(60 * m + s == secs);
        assert(seconds_words(secs) == decimal(m) + "m"@ + two_digits(s) + "s"@);
    }
}

/// What lies below a directory is what its path and a slash come before. Below
/// the root lies everything but the root.
pub proof fn law_below_by_the_slash(dir: Seq<char>, rest: Seq<char>, path: Seq<char>)
    ensures
        below(dir, dir + seq!['/'] + rest),
        dir.len() > 0 && dir.last() == '/' && rest.len() > 0 ==> below(dir, dir + rest),
        dir.len() == 0 ==> (below(dir, path) <==> path.len() > 0),
        dir.len() > 0 && below(dir, path) ==> {
            &&& path.len() > dir.len()
            &&& begins(path, dir)
            &&& path[dir.len() as int] == '/' || dir.last() == '/'
        },
{
    let deeper = dir + seq!['/'] + rest;
    if dir.len() > 0 {
        assert(deeper.subrange(0, as_folder(dir).len() as int) =~= as_folder(dir));
        assert(deeper.len() != dir.len());
        if dir.last() == '/' {
            assert((dir + rest).subrange(0, dir.len() as int) =~= dir);
        }
        if below(dir, path) {
            assert(as_folder(dir).subrange(0, dir.len() as int) =~= dir);
            law_begins_is_transitive(path, as_folder(dir), dir);
            if path.len() == dir.len() {
                assert(path.subrange(0, dir.len() as int) =~= path);
            }
            if dir.last() != '/' {
                assert(path.subrange(0, as_folder(dir).len() as int)[dir.len() as int] == '/');
            }
        }
    }
}

/// A directory is left out of another of its own accord exactly where it is one
/// of those that are known, another one, of the same remote, and below; those
/// that are left out keep their order.
pub proof fn law_nested_are_left_out(sd: SyncDir, all: Seq<SyncDir>, d: SyncDir)
    ensures
        auto_excluded(sd, Seq::empty()).len() == 0,
        auto_excluded(sd, all.push(d)) == (if d.id != sd.id && d.remote_id == sd.remote_id && below(
            sd.remote_path@,
            d.remote_path@,
        ) {
            auto_excluded(sd, all).push(d)
        } else {
            auto_excluded(sd, all)
        }),
        auto_excluded(sd, all).contains(d) ==> d.id != sd.id && d.remote_id == sd.remote_id
            && below(sd.remote_path@, d.remote_path@),
        all.contains(d) && d.id != sd.id && d.remote_id == sd.remote_id && below(
            sd.remote_path@,
            d.remote_path@,
        ) ==> auto_excluded(sd, all).contains(d),
{
    let p = nested_in(sd);
    all.filter_lemma(p);
    assert(all.push(d).drop_last() =~= all);
    reveal(Seq::filter);
    if auto_excluded(sd, all).contains(d) {
        let i = choose|i: int|
            0 <= i < auto_excluded(sd, all).len() && auto_excluded(sd, all)[i] == d;
        assert(p(all.filter(p)[i]));
    }
    if all.contains(d) && p(d) {
        let i = choose|i: int| 0 <= i < all.len() && all[i] == d;
        assert(p(all[i]));
    }
}

/// The words of the dialog name what is about to be deleted: the remote by its
/// name, the link by both of its paths, where the root is a slash.
pub proof fn law_dialog_names_what_is_deleted(
    id: RemoteId,
    name: Seq<char>,
    local: Seq<char>,
    remote: Seq<char>,
)
    ensures
        question(PendingDeleteView::Remote(id, name)).title == "Delete remote?"@,
        question(PendingDeleteView::Remote(id, name)).body
            == "Are you sure you want to delete the remote \""@ + name
            + "\"? All sync directories for this remote will be removed and syncing will stop. Local files are preserved."@,
        question(PendingDeleteView::SyncDir { local, remote }).title == "Delete sync directory?"@,
        question(PendingDeleteView::SyncDir { local, remote }).body
            == "Are you sure you want to delete the sync directory "@ + ("\""@ + local
            + "\" → \""@ + (if remote.len() == 0 {
            "/"@
        } else {
            remote
        }) + "\""@)
            + "? Local and remote files are preserved; only the link between them is removed."@,
{
}

/// Questions about remotes of different names are different.
pub proof fn law_different_questions(id: RemoteId, name: Seq<char>, other: Seq<char>)
    requires
        question(PendingDeleteView::Remote(id, name)).body == question(
            PendingDeleteView::Remote(id, other),
        ).body,
    ensures
        name == other,
{
    let x = question(PendingDeleteView::Remote(id, name)).body;
    let y = question(PendingDeleteView::Remote(id, other)).body;
    let head = "Are you sure you want to delete the remote \""@;
    let end =
        "\"? All sync directories for this remote will be removed and syncing will stop. Local files are preserved."@;
    assert(x.len() == head.len() + name.len() + end.len());
    assert(y.len() == head.len() + other.len() + end.len());
    assert(x.subrange(head.len() as int, (head.len() + name.len()) as int) =~= name);
    assert(y.subrange(head.len() as int, (head.len() + other.len()) as int) =~= other);
}

/// The panel has a line for each directory that is left out of its own accord,
/// with its path seen from the directory of the panel, and a line for each that
/// the user left out, with the key that removes it.
pub proof fn law_panel_has_a_line_for_each(
    sd: SyncDir,
    automatic: Seq<SyncDir>,
    custom: Seq<SyncDirExclusion>,
    draft: Seq<char>,
    i: int,
)
    ensures
        ({
            let p = panel(sd, automatic, custom, draft);
            &&& p.automatic.len() == automatic.len()
            &&& p.custom.len() == custom.len()
            &&& p.draft == draft
            &&& p.nothing <==> automatic.len() == 0 && custom.len() == 0
            &&& 0 <= i < automatic.len() ==> p.automatic[i] == "  \""@ + relative(
                sd.remote_path@,
                automatic[i].remote_path@,
            ) + "\""@
            &&& 0 <= i < custom.len() ==> p.custom[i].0 == custom[i].id && p.custom[i].1
                == "  \""@ + custom[i].remote_path@ + "\""@
        }),
{
}

/// The countdown tells how long it is to the next pass and whether passes are
/// skipped; without one it says that the remote is paused.
pub proof fn law_countdown_tells_the_next_pass(remaining: Duration, in_backoff: bool)
    ensures
        counted(Some((remaining, in_backoff))).label == "next sync in "@ + seconds_words(
            whole_seconds(remaining) as nat,
        ),
        counted(Some((remaining, in_backoff))).in_backoff == in_backoff,
        counted(None).label == "paused"@,
        !counted(None).in_backoff,
{
}

/// The card of a directory shows that directory: its key, its paths, where it
/// stands, and how much is left out of it. Its panel is open exactly where it is
/// the one that was opened, and shows what is left out of this directory.
pub proof fn law_card_is_of_its_directory(known: Known<'_>, sd: SyncDir)
    ensures
        ({
            let card = known.card(sd);
            let automatic = auto_excluded(sd, known.all_known_sync_dirs@);
            let custom = if known.exclusions@.contains_key(sd.id.0) {
                known.exclusions@[sd.id.0]@
            } else {
                Seq::empty()
            };
            let draft = if known.draft_exclusion@.contains_key(sd.id.0) {
                known.draft_exclusion@[sd.id.0]@
            } else {
                Seq::empty()
            };
            &&& card.id == sd.id
            &&& card.local_path == sd.local_path@
            &&& card.remote_path == sd.remote_path@
            &&& card.path_label == "\""@ + sd.local_path@ + "\" → \""@ + (
            if sd.remote_path@.len() == 0 {
                "/"@
            } else {
                sd.remote_path@
            }) + "\""@
            &&& card.excluded_label == "Excluded ("@ + decimal(automatic.len() + custom.len())
                + ")"@
            &&& !known.needs_reauth && known.status@.contains_key(sd.id.0) ==> card.icon_state
                == Some(known.status@[sd.id.0])
            &&& !known.needs_reauth && !known.status@.contains_key(sd.id.0)
                ==> card.icon_state is None
            &&& card.panel is Some <==> known.exclusion_panel == Some(sd.id)
            &&& card.panel matches Some(p) ==> p == panel(sd, automatic, custom, draft)
        }),
{
}

/// The page of a remote shows that remote, with a card for each of its
/// directories, in their order, and a dialog exactly where something is about to
/// be deleted.
pub proof fn law_page_is_of_its_remote(
    remote: Remote,
    dirs: Seq<SyncDir>,
    known: Known<'_>,
    local: Seq<char>,
    far: Seq<char>,
    eta: Option<(Duration, bool)>,
    pending: Option<PendingDeleteView>,
    i: int,
)
    ensures
        ({
            let p = page(remote, dirs, known, local, far, eta, pending);
            &&& p.remote == remote.id
            &&& p.name == remote.name@
            &&& p.countdown == counted(eta)
            &&& p.reauth_banner == known.needs_reauth
            &&& p.no_directories <==> dirs.len() == 0
            &&& p.cards.len() == dirs.len()
            &&& 0 <= i < dirs.len() ==> p.cards[i] == known.card(dirs[i])
            &&& p.draft_local == local
            &&& p.draft_remote == far
            &&& p.dialog is Some <==> pending is Some
            &&& pending matches Some(asked) ==> p.dialog == Some(question(asked))
        }),
{
}

/// Of a page and its cards everything is told.
pub proof fn law_page_is_told_whole(page: Page, card: Card, panel: Panel, dialog: Dialog, i: int)
    ensures
        page@.remote == page.remote && page@.name == page.name@,
        page@.countdown.label == page.countdown.label@,
        page@.countdown.in_backoff == page.countdown.in_backoff,
        page@.reauth_banner == page.reauth_banner && page@.no_directories == page.no_directories,
        page@.cards.len() == page.cards@.len(),
        0 <= i < page.cards@.len() ==> page@.cards[i] == page.cards@[i]@,
        page@.draft_local == page.draft_local@ && page@.draft_remote == page.draft_remote@,
        page@.dialog == page.dialog.deep_view(),
        card@.id == card.id && card@.icon_state == card.icon_state,
        card@.path_label == card.path_label@ && card@.excluded_label == card.excluded_label@,
        card@.local_path == card.local_path@ && card@.remote_path == card.remote_path@,
        card@.panel == card.panel.deep_view(),
        panel@.automatic.len() == panel.automatic@.len(),
        0 <= i < panel.automatic@.len() ==> panel@.automatic[i] == panel.automatic@[i]@,
        panel@.custom.len() == panel.custom@.len(),
        0 <= i < panel.custom@.len() ==> panel@.custom[i] == (
            panel.custom@[i].0,
            panel.custom@[i].1@,
        ),
        panel@.nothing == panel.nothing && panel@.draft == panel.draft@,
        dialog@.title == dialog.title@ && dialog@.body == dialog.body@,
{
}

} // verus!
