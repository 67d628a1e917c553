//! One sync pass over one directory: list both sides, plan, apply. What lists,
//! plans and applies is outside; here stands what is done after each phase,
//! what the user is told, and what the pass comes to.

use crate::domain::events::{Notice, Reason, ReasonView, SyncEvent, SyncEventView};
use crate::domain::remote::{Remote, RemoteId};
use crate::domain::run_state::{RunState, SyncActivity};
use crate::domain::sync::{SyncDir, SyncDirId, SyncError};
use vstd::prelude::*;
use vstd::string::*;

verus! {

/// What a pass came to.
#[derive(Clone, Copy, Debug, PartialEq, Eq, Structural)]
pub enum Outcome {
    /// The plan was applied in full.
    Synced,
    /// The pass refused to act: it was cancelled, or the listing failed.
    Aborted,
    /// The provider limits the rate, so the next pass had better wait.
    Degraded,
}

/// Something to be done outside.
#[derive(Clone, Debug, PartialEq, Eq)]
pub enum Action {
    /// Take the snapshot: the remote listing, the local tree and the database.
    List,
    /// Turn the snapshot into actions.
    Plan,
    /// Carry out the actions.
    Apply,
    /// Have the client keep what changed of its session.
    Checkpoint { remote: String },
}

/// What came of an [`Action`], one for each. A rate limit counts from the start
/// of the pass on; the cancel flag is the one of the moment.
#[derive(Debug, PartialEq, Eq)]
pub enum Event {
    Listed { rate_limited: bool, result: Result<(), String>, cancelled: bool },
    Planned { actions: usize },
    Applied,
    Checkpointed { cancelled: bool, rate_limited: bool },
}

/// What a pass waits for.
#[derive(Clone, Copy, Debug, PartialEq, Eq, Structural)]
pub enum Phase {
    Listing,
    Planning,
    Applying,
    Keeping,
}

/// A pass on its way.
#[derive(Clone, Debug, PartialEq, Eq)]
pub struct Pass {
    remote_id: RemoteId,
    remote_name: String,
    sync_dir_id: SyncDirId,
    remote_path: String,
    phase: Phase,
}

/// What follows: something to do, whose outcome goes to the pass, or the end.
#[derive(Clone, Debug, PartialEq, Eq)]
pub enum Next {
    Act(Pass, Action),
    Done(Outcome),
}

/// A step of a pass: what is reported now, in this order, and what follows.
#[derive(Clone, Debug, PartialEq, Eq)]
pub struct Step {
    pub events: Vec<SyncEvent>,
    pub next: Next,
}

/// An [`Action`] as a mathematical value.
pub enum ActionView {
    List,
    Plan,
    Apply,
    Checkpoint { remote: Seq<char> },
}

/// An [`Event`] as a mathematical value.
pub enum EventView {
    Listed { rate_limited: bool, result: Result<(), Seq<char>>, cancelled: bool },
    Planned { actions: usize },
    Applied,
    Checkpointed { cancelled: bool, rate_limited: bool },
}

/// A [`Pass`] as a mathematical value.
pub struct PassView {
    pub remote_id: RemoteId,
    pub remote_name: Seq<char>,
    pub sync_dir_id: SyncDirId,
    pub remote_path: Seq<char>,
    pub phase: Phase,
}

/// A [`Next`] as a mathematical value.
pub enum NextView {
    Act(PassView, ActionView),
    Done(Outcome),
}

/// A [`Step`] as a mathematical value.
pub struct StepView {
    pub events: Seq<SyncEventView>,
    pub next: NextView,
}

impl View for Action {
    type V = ActionView;

    open spec fn view(&self) -> ActionView {
        match self {
            Action::List => ActionView::List,
            Action::Plan => ActionView::Plan,
            Action::Apply => ActionView::Apply,
            Action::Checkpoint { remote } => ActionView::Checkpoint { remote: remote@ },
        }
    }
}

impl View for Event {
    type V = EventView;

    open spec fn view(&self) -> EventView {
        match self {
            Event::Listed { rate_limited, result, cancelled } => EventView::Listed {
                rate_limited: *rate_limited,
                result: match result {
                    Ok(()) => Ok(()),
                    Err(e) => Err(e@),
                },
                cancelled: *cancelled,
            },
            Event::Planned { actions } => EventView::Planned { actions: *actions },
            Event::Applied => EventView::Applied,
            Event::Checkpointed { cancelled, rate_limited } => EventView::Checkpointed {
                cancelled: *cancelled,
                rate_limited: *rate_limited,
            },
        }
    }
}

impl View for Pass {
    type V = PassView;

    closed spec fn view(&self) -> PassView {
        PassView {
            remote_id: self.remote_id,
            remote_name: self.remote_name@,
            sync_dir_id: self.sync_dir_id,
            remote_path: self.remote_path@,
            phase: self.phase,
        }
    }
}

impl View for Next {
    type V = NextView;

    open spec fn view(&self) -> NextView {
        match self {
            Next::Act(pass, action) => NextView::Act(pass@, action@),
            Next::Done(outcome) => NextView::Done(*outcome),
        }
    }
}

impl View for Step {
    type V = StepView;

    open spec fn view(&self) -> StepView {
        StepView { events: self.events.deep_view(), next: self.next@ }
    }
}

impl PassView {
    /// The report that the directory is now at `state`.
    pub open spec fn state(self, state: RunState) -> SyncEventView {
        SyncEventView::State { remote: self.remote_id, dir: self.sync_dir_id, state }
    }

    /// The report of a status line.
    pub open spec fn status(self, text: Notice) -> SyncEventView {
        SyncEventView::Status { remote: self.remote_id, dir: self.sync_dir_id, text }
    }

    /// The report of what is about to be done.
    pub open spec fn pending(self, text: Notice) -> SyncEventView {
        SyncEventView::Pending { remote: self.remote_id, dir: self.sync_dir_id, text }
    }

    /// The report that the directory could not be brought in step.
    pub open spec fn failed(self, reason: ReasonView) -> SyncEventView {
        SyncEventView::Failed {
            remote: self.remote_id,
            dir: self.sync_dir_id,
            path: self.remote_path,
            reason,
        }
    }

    /// The same pass, waiting for `phase`.
    pub open spec fn at(self, phase: Phase) -> PassView {
        PassView { phase, ..self }
    }

    /// Whether `event` is what the pass waits for.
    pub open spec fn awaits(self, event: EventView) -> bool {
        match self.phase {
            Phase::Listing => event is Listed,
            Phase::Planning => event is Planned,
            Phase::Applying => event is Applied,
            Phase::Keeping => event is Checkpointed,
        }
    }

    /// The step after `event`. A rate limit counts before everything else, so
    /// that a listing that failed because of it makes the next pass wait.
    pub open spec fn next(self, event: EventView) -> StepView {
        match event {
            EventView::Listed { rate_limited, result, cancelled } => if rate_limited {
                StepView {
                    events: seq![
                        self.failed(ReasonView::Notice(Notice::RateLimitedListing)),
                        self.status(Notice::SkippedRateLimited),
                        self.state(RunState::Warning),
                    ],
                    next: NextView::Done(Outcome::Degraded),
                }
            } else {
                match result {
                    Err(e) => StepView {
                        events: seq![
                            self.failed(ReasonView::Message(e)),
                            self.state(RunState::Error),
                        ],
                        next: NextView::Done(Outcome::Aborted),
                    },
                    Ok(_) => if cancelled {
                        StepView {
                            events: seq![self.status(Notice::Cancelled)],
                            next: NextView::Done(Outcome::Aborted),
                        }
                    } else {
                        StepView {
                            events: seq![],
                            next: NextView::Act(self.at(Phase::Planning), ActionView::Plan),
                        }
                    },
                }
            },
            EventView::Planned { actions } => StepView {
                events: if actions > 0 {
                    seq![self.pending(Notice::Applying(actions))]
                } else {
                    seq![]
                },
                next: NextView::Act(self.at(Phase::Applying), ActionView::Apply),
            },
            EventView::Applied => StepView {
                events: seq![],
                next: NextView::Act(
                    self.at(Phase::Keeping),
                    ActionView::Checkpoint { remote: self.remote_name },
                ),
            },
            EventView::Checkpointed { cancelled, rate_limited } => if cancelled {
                StepView {
                    events: seq![self.status(Notice::Cancelled)],
                    next: NextView::Done(Outcome::Aborted),
                }
            } else if rate_limited {
                StepView {
                    events: seq![
                        self.status(Notice::SyncedRateLimited),
                        self.state(RunState::Warning),
                    ],
                    next: NextView::Done(Outcome::Degraded),
                }
            } else {
                StepView {
                    events: seq![self.state(RunState::Synced)],
                    next: NextView::Done(Outcome::Synced),
                }
            },
        }
    }
}

/// A pass that waits for its listing.
pub open spec fn fresh(remote: Remote, sync_dir: SyncDir) -> PassView {
    PassView {
        remote_id: remote.id,
        remote_name: remote.name@,
        sync_dir_id: sync_dir.id,
        remote_path: sync_dir.remote_path@,
        phase: Phase::Listing,
    }
}

/// The first step of a pass.
pub open spec fn first(pass: PassView) -> StepView {
    StepView {
        events: seq![pass.state(RunState::Syncing(SyncActivity::Listing))],
        next: NextView::Act(pass, ActionView::List),
    }
}

/// Starts a pass over `sync_dir`, a directory of `remote`.
pub fn run(remote: &Remote, sync_dir: &SyncDir) -> (r: Step)
    ensures
        r@ == first(fresh(*remote, *sync_dir)),
{
    let pass = Pass {
        remote_id: remote.id,
        remote_name: remote.name.clone(),
        sync_dir_id: sync_dir.id,
        remote_path: sync_dir.remote_path.clone(),
        phase: Phase::Listing,
    };
    let mut events: Vec<SyncEvent> = Vec::new();
    events.push(pass.state_event(RunState::Syncing(SyncActivity::Listing)));
    let r = Step { events, next: Next::Act(pass, Action::List) };
    assert(r@.events =~= first(fresh(*remote, *sync_dir)).events);
    r
}

impl Pass {
    fn state_event(&self, state: RunState) -> (r: SyncEvent)
        ensures
            r@ == self@.state(state),
    {
        SyncEvent::SyncDirStateChanged {
            remote_id: self.remote_id,
            sync_dir_id: self.sync_dir_id,
            state,
        }
    }

    fn status_event(&self, text: Notice) -> (r: SyncEvent)
        ensures
            r@ == self@.status(text),
    {
        SyncEvent::SyncDirStatus { remote_id: self.remote_id, sync_dir_id: self.sync_dir_id, text }
    }

    fn pending_event(&self, text: Notice) -> (r: SyncEvent)
        ensures
            r@ == self@.pending(text),
    {
        SyncEvent::SyncDirPending { remote_id: self.remote_id, sync_dir_id: self.sync_dir_id, text }
    }

    fn error_event(&self, reason: Reason) -> (r: SyncEvent)
        ensures
            r@ == self@.failed(reason@),
    {
        SyncEvent::SyncDirError {
            remote_id: self.remote_id,
            sync_dir_id: self.sync_dir_id,
            error: SyncError::General(self.remote_path.clone(), reason),
        }
    }

    /// The step after `event`, the outcome of what the pass waits for.
    pub fn resume(self, event: Event) -> (r: Step)
        requires
            self@.awaits(event@),
        ensures
            r@ == self@.next(event@),
    {
        let ghost wanted = self@.next(event@);
        let mut events: Vec<SyncEvent> = Vec::new();
        let next = match event {
            Event::Listed { rate_limited, result, cancelled } => if rate_limited {
                events.push(self.error_event(Reason::Notice(Notice::RateLimitedListing)));
                events.push(self.status_event(Notice::SkippedRateLimited));
                events.push(self.state_event(RunState::Warning));
                Next::Done(Outcome::Degraded)
            } else {
                match result {
                    Err(e) => {
                        events.push(self.error_event(Reason::Message(e)));
                        events.push(self.state_event(RunState::Error));
                        Next::Done(Outcome::Aborted)
                    },
                    Ok(()) => if cancelled {
                        events.push(self.status_event(Notice::Cancelled));
                        Next::Done(Outcome::Aborted)
                    } else {
                        Next::Act(Pass { phase: Phase::Planning, ..self }, Action::Plan)
                    },
                }
            },
            Event::Planned { actions } => {
                if actions > 0 {
                    events.push(self.pending_event(Notice::Applying(actions)));
                }
                Next::Act(Pass { phase: Phase::Applying, ..self }, Action::Apply)
            },
            Event::Applied => {
                let remote = self.remote_name.clone();
                Next::Act(Pass { phase: Phase::Keeping, ..self }, Action::Checkpoint { remote })
            },
            Event::Checkpointed { cancelled, rate_limited } => if cancelled {
                events.push(self.status_event(Notice::Cancelled));
                Next::Done(Outcome::Aborted)
            } else if rate_limited {
                events.push(self.status_event(Notice::SyncedRateLimited));
                events.push(self.state_event(RunState::Warning));
                Next::Done(Outcome::Degraded)
            } else {
                events.push(self.state_event(RunState::Synced));
                Next::Done(Outcome::Synced)
            },
        };
        let r = Step { events, next };
        assert(r@.events =~= wanted.events);
        r
    }
}

/// Whether `event` is the kind of outcome that `action` has.
pub open spec fn fits(action: ActionView, event: EventView) -> bool {
    match action {
        ActionView::List => event is Listed,
        ActionView::Plan => event is Planned,
        ActionView::Apply => event is Applied,
        ActionView::Checkpoint { .. } => event is Checkpointed,
    }
}

/// A step that can go on: whatever comes of its action is what its pass awaits.
pub open spec fn can_go_on(step: StepView) -> bool {
    step.next matches NextView::Act(pass, action) ==> forall|event: EventView| #[trigger]
        fits(action, event) ==> pass.awaits(event)
}

/// A pass never gets stuck on an outcome.
pub proof fn law_goes_on(pass: PassView, event: EventView)
    requires
        pass.awaits(event),
    ensures
        can_go_on(first(pass.at(Phase::Listing))),
        can_go_on(pass.next(event)),
{
}

/// A rate limit seen during the listing makes the next pass wait and leaves
/// everything as it is, even where the listing failed or the user cancelled.
pub proof fn law_rate_limit_comes_first(
    pass: PassView,
    result: Result<(), Seq<char>>,
    cancelled: bool,
)
    ensures
        pass.next(EventView::Listed { rate_limited: true, result, cancelled }).next
            == NextView::Done(Outcome::Degraded),
{
}

/// Nothing is applied after a listing that failed, nor once the user has
/// cancelled: the pass is over.
pub proof fn law_no_plan_without_listing(
    pass: PassView,
    rate_limited: bool,
    result: Result<(), Seq<char>>,
    cancelled: bool,
)
    ensures
        pass.next(EventView::Listed { rate_limited, result, cancelled }).next is Act <==> (
        !rate_limited && result is Ok && !cancelled),
{
}

/// Whatever was applied, the session is kept next, under the name of the
/// remote, before the pass can end.
pub proof fn law_apply_then_keep(pass: PassView)
    ensures
        pass.next(EventView::Applied).next == NextView::Act(
            pass.at(Phase::Keeping),
            ActionView::Checkpoint { remote: pass.remote_name },
        ),
{
}

/// Every report of a pass is on its remote and its directory.
pub open spec fn concerns(event: SyncEventView, pass: PassView) -> bool {
    match event {
        SyncEventView::Pending { remote, dir, .. } => remote == pass.remote_id && dir
            == pass.sync_dir_id,
        SyncEventView::Failed { remote, dir, path, .. } => remote == pass.remote_id && dir
            == pass.sync_dir_id && path == pass.remote_path,
        SyncEventView::Status { remote, dir, .. } => remote == pass.remote_id && dir
            == pass.sync_dir_id,
        SyncEventView::State { remote, dir, .. } => remote == pass.remote_id && dir
            == pass.sync_dir_id,
    }
}

/// What a pass reports is on its own directory, and it stays with it.
pub proof fn law_reports_own_directory(pass: PassView, event: EventView)
    ensures
        forall|i: int|
            0 <= i < pass.next(event).events.len() ==> concerns(
                #[trigger] pass.next(event).events[i],
                pass,
            ),
        pass.next(event).next matches NextView::Act(after, _) ==> after.at(pass.phase) == pass,
{
}

/// What the user is told last agrees with what the pass comes to: it ends in
/// step, with a warning where the provider limits the rate, and otherwise with
/// an error or with the word that it was cancelled.
pub proof fn law_outcome_is_reported(pass: PassView, event: EventView)
    ensures
        pass.next(event).next matches NextView::Done(outcome) ==> {
            let last = pass.next(event).events.last();
            match outcome {
                Outcome::Synced => last == pass.state(RunState::Synced),
                Outcome::Degraded => last == pass.state(RunState::Warning),
                Outcome::Aborted => last == pass.state(RunState::Error) || last == pass.status(
                    Notice::Cancelled,
                ),
            }
        },
{
}

/// How the phases of one pass go, as the outside sees them.
pub struct World {
    pub limited_listing: bool,
    pub listing: Result<(), Seq<char>>,
    pub cancelled_listing: bool,
    pub actions: usize,
    pub cancelled_end: bool,
    pub limited_end: bool,
}

impl World {
    /// The outcome of `action`.
    pub open spec fn answer(self, action: ActionView) -> EventView {
        match action {
            ActionView::List => EventView::Listed {
                rate_limited: self.limited_listing,
                result: self.listing,
                cancelled: self.cancelled_listing,
            },
            ActionView::Plan => EventView::Planned { actions: self.actions },
            ActionView::Apply => EventView::Applied,
            ActionView::Checkpoint { .. } => EventView::Checkpointed {
                cancelled: self.cancelled_end,
                rate_limited: self.limited_end,
            },
        }
    }

    /// What a pass comes to, told without its steps.
    pub open spec fn outcome(self) -> Outcome {
        if self.limited_listing {
            Outcome::Degraded
        } else if self.listing is Err || self.cancelled_listing || self.cancelled_end {
            Outcome::Aborted
        } else if self.limited_end {
            Outcome::Degraded
        } else {
            Outcome::Synced
        }
    }

    /// What is asked for on the way.
    pub open spec fn asked(self, remote: Seq<char>) -> Seq<ActionView> {
        if self.limited_listing || self.listing is Err || self.cancelled_listing {
            seq![ActionView::List]
        } else {
            seq![
                ActionView::List,
                ActionView::Plan,
                ActionView::Apply,
                ActionView::Checkpoint { remote },
            ]
        }
    }
}

/// What comes of `next` within so many actions: what is asked for, and the end.
pub open spec fn follow(next: NextView, world: World, actions: nat) -> (
    Seq<ActionView>,
    Option<Outcome>,
)
    decreases actions,
{
    match next {
        NextView::Done(outcome) => (seq![], Some(outcome)),
        NextView::Act(pass, action) => if actions == 0 {
            (seq![], None)
        } else {
            let (asked, end) = follow(
                pass.next(world.answer(action)).next,
                world,
                (actions - 1) as nat,
            );
            (seq![action] + asked, end)
        },
    }
}

/// A pass asks for what is said of it, and comes to what is said of it. It is
/// `Synced` only where the plan was applied, nobody cancelled and no rate limit
/// was seen.
pub proof fn law_pass_leads_to_outcome(pass: PassView, world: World)
    requires
        pass.phase == Phase::Listing,
    ensures
        follow(first(pass).next, world, 4).0 == world.asked(pass.remote_name),
        follow(first(pass).next, world, 4).1 == Some(world.outcome()),
{
    reveal_with_fuel(follow, 5);
    assert(follow(first(pass).next, world, 4).0 =~= world.asked(pass.remote_name));
}

/// What a listing leads to, and what is reported of it: nothing and the plan,
/// or the words of the failure, or that the user cancelled, or that the provider
/// limits the rate.
pub proof fn law_listing_is_reported(
    pass: PassView,
    e: Seq<char>,
    result: Result<(), Seq<char>>,
    cancelled: bool,
)
    ensures
        ({
            let (remote, dir) = (pass.remote_id, pass.sync_dir_id);
            let path = pass.remote_path;
            let limited = pass.next(
                EventView::Listed { rate_limited: true, result, cancelled },
            ).events;
            let broken = pass.next(
                EventView::Listed { rate_limited: false, result: Err(e), cancelled },
            ).events;
            let stopped = pass.next(
                EventView::Listed { rate_limited: false, result: Ok(()), cancelled: true },
            ).events;
            let plan = pass.next(
                EventView::Listed { rate_limited: false, result: Ok(()), cancelled: false },
            );
            &&& limited == seq![
                SyncEventView::Failed {
                    remote,
                    dir,
                    path,
                    reason: ReasonView::Notice(Notice::RateLimitedListing),
                },
                SyncEventView::Status { remote, dir, text: Notice::SkippedRateLimited },
                SyncEventView::State { remote, dir, state: RunState::Warning },
            ]
            &&& broken == seq![
                SyncEventView::Failed { remote, dir, path, reason: ReasonView::Message(e) },
                SyncEventView::State { remote, dir, state: RunState::Error },
            ]
            &&& stopped == seq![SyncEventView::Status { remote, dir, text: Notice::Cancelled }]
            &&& plan.events.len() == 0
            &&& plan.next == NextView::Act(
                PassView { phase: Phase::Planning, ..pass },
                ActionView::Plan,
            )
        }),
{
}

/// A plan is applied, whatever it holds; the user is told of it beforehand, with
/// the number of its actions, exactly where it holds any.
pub proof fn law_plan_is_applied(pass: PassView, actions: usize)
    ensures
        ({
            let step = pass.next(EventView::Planned { actions });
            &&& step.next == NextView::Act(
                PassView { phase: Phase::Applying, ..pass },
                ActionView::Apply,
            )
            &&& actions == 0 ==> step.events.len() == 0
            &&& actions > 0 ==> step.events == seq![
                SyncEventView::Pending {
                    remote: pass.remote_id,
                    dir: pass.sync_dir_id,
                    text: Notice::Applying(actions),
                },
            ]
            &&& pass.next(EventView::Applied).events.len() == 0
        }),
{
}

/// How a pass ends once its plan was applied: cancelled, with a warning, or in
/// step, and told so.
pub proof fn law_end_is_reported(pass: PassView, rate_limited: bool)
    ensures
        ({
            let (remote, dir) = (pass.remote_id, pass.sync_dir_id);
            let stopped = pass.next(EventView::Checkpointed { cancelled: true, rate_limited });
            let limited = pass.next(
                EventView::Checkpointed { cancelled: false, rate_limited: true },
            );
            let done = pass.next(EventView::Checkpointed { cancelled: false, rate_limited: false });
            &&& stopped.next == NextView::Done(Outcome::Aborted)
            &&& stopped.events == seq![
                SyncEventView::Status { remote, dir, text: Notice::Cancelled },
            ]
            &&& limited.next == NextView::Done(Outcome::Degraded)
            &&& limited.events == seq![
                SyncEventView::Status { remote, dir, text: Notice::SyncedRateLimited },
                SyncEventView::State { remote, dir, state: RunState::Warning },
            ]
            &&& done.next == NextView::Done(Outcome::Synced)
            &&& done.events == seq![SyncEventView::State { remote, dir, state: RunState::Synced }]
        }),
{
}

/// A pass is on the directory and the remote that it was started for, and it
/// begins with the word that it lists.
pub proof fn law_pass_is_on_its_directory(remote: Remote, sync_dir: SyncDir)
    ensures
        fresh(remote, sync_dir).remote_id == remote.id,
        fresh(remote, sync_dir).remote_name == remote.name@,
        fresh(remote, sync_dir).sync_dir_id == sync_dir.id,
        fresh(remote, sync_dir).remote_path == sync_dir.remote_path@,
        first(fresh(remote, sync_dir)).events == seq![
            SyncEventView::State {
                remote: remote.id,
                dir: sync_dir.id,
                state: RunState::Syncing(SyncActivity::Listing),
            },
        ],
        first(fresh(remote, sync_dir)).next == NextView::Act(
            fresh(remote, sync_dir),
            ActionView::List,
        ),
{
}

/// A pass is in step exactly where the listing succeeded, nobody cancelled and
/// no rate limit was seen; it makes the next one wait exactly where a rate limit
/// was seen during the listing, or at the end of one that nobody cancelled; and
/// it applies its plan exactly where the listing succeeded, without a rate limit
/// and uncancelled.
pub proof fn law_what_a_pass_comes_to(pass: PassView, world: World)
    requires
        pass.phase == Phase::Listing,
    ensures
        ({
            let (asked, end) = follow(first(pass).next, world, 4);
            let listed = !world.limited_listing && world.listing is Ok
                && !world.cancelled_listing;
            &&& end == Some(Outcome::Synced) <==> listed && !world.cancelled_end
                && !world.limited_end
            &&& end == Some(Outcome::Degraded) <==> world.limited_listing || (listed
                && !world.cancelled_end && world.limited_end)
            &&& end is Some
            &&& asked.contains(ActionView::Apply) <==> listed
            &&& asked.contains(ActionView::Checkpoint { remote: pass.remote_name }) <==> listed
            &&& asked.len() <= 4 && asked[0] == ActionView::List
        }),
{
    law_pass_leads_to_outcome(pass, world);
    let asked = follow(first(pass).next, world, 4).0;
    if !world.limited_listing && world.listing is Ok && !world.cancelled_listing {
        assert(asked[2] == ActionView::Apply);
        assert(asked[3] == (ActionView::Checkpoint { remote: pass.remote_name }));
    }
}

/// Of what a pass asks for, and of what it reports, everything is told.
pub proof fn law_actions_and_reports_are_told_whole(
    pass: PassView,
    name: String,
    words: String,
    text: Notice,
    state: RunState,
)
    ensures
        Action::List@ == ActionView::List,
        Action::Plan@ == ActionView::Plan,
        Action::Apply@ == ActionView::Apply,
        (Action::Checkpoint { remote: name })@ == (ActionView::Checkpoint { remote: name@ }),
        ({
            let (remote_id, sync_dir_id) = (pass.remote_id, pass.sync_dir_id);
            &&& (SyncEvent::SyncDirPending { remote_id, sync_dir_id, text })@ == (
            SyncEventView::Pending { remote: remote_id, dir: sync_dir_id, text })
            &&& (SyncEvent::SyncDirStatus { remote_id, sync_dir_id, text })@ == (
            SyncEventView::Status { remote: remote_id, dir: sync_dir_id, text })
            &&& (SyncEvent::SyncDirStateChanged { remote_id, sync_dir_id, state })@ == (
            SyncEventView::State { remote: remote_id, dir: sync_dir_id, state })
            &&& (SyncEvent::SyncDirError {
                remote_id,
                sync_dir_id,
                error: SyncError::General(name, Reason::Message(words)),
            })@ == (SyncEventView::Failed {
                remote: remote_id,
                dir: sync_dir_id,
                path: name@,
                reason: ReasonView::Message(words@),
            })
            &&& (SyncEvent::SyncDirError {
                remote_id,
                sync_dir_id,
                error: SyncError::General(name, Reason::Notice(text)),
            })@ == (SyncEventView::Failed {
                remote: remote_id,
                dir: sync_dir_id,
                path: name@,
                reason: ReasonView::Notice(text),
            })
        }),
{
}

} // verus!
