use celeste::domain::events::{Notice, Reason, SyncEvent};
use celeste::domain::remote::{Remote, RemoteId, SyncPolicy};
use celeste::domain::run_state::{RunState, SyncActivity};
use celeste::domain::sync::{SyncDir, SyncDirId, SyncError};
use celeste::services::sync::{run, Action, Event, Next, Outcome};
use std::time::Duration;

const REMOTE: RemoteId = RemoteId(3);
const DIR: SyncDirId = SyncDirId(4);

/// How the phases go.
#[derive(Clone)]
struct World {
    limited_listing: bool,
    listing: Result<(), String>,
    cancelled_listing: bool,
    actions: usize,
    cancelled_end: bool,
    limited_end: bool,
}

fn fine() -> World {
    World {
        limited_listing: false,
        listing: Ok(()),
        cancelled_listing: false,
        actions: 2,
        cancelled_end: false,
        limited_end: false,
    }
}

fn pass(world: World) -> (Vec<SyncEvent>, Vec<Action>, Outcome) {
    let remote = Remote {
        id: REMOTE,
        name: "work".to_owned(),
        policy: SyncPolicy { interval: Duration::from_secs(60), enabled: true },
        provider_kind: None,
    };
    let dir = SyncDir {
        id: DIR,
        remote_id: REMOTE,
        local_path: "/home/me".to_owned(),
        remote_path: "Docs".to_owned(),
    };
    let (mut events, mut actions) = (Vec::new(), Vec::new());
    let mut step = run(&remote, &dir);
    loop {
        events.append(&mut step.events);
        match step.next {
            Next::Done(outcome) => return (events, actions, outcome),
            Next::Act(pass, action) => {
                let event = match &action {
                    Action::List => Event::Listed {
                        rate_limited: world.limited_listing,
                        result: world.listing.clone(),
                        cancelled: world.cancelled_listing,
                    },
                    Action::Plan => Event::Planned { actions: world.actions },
                    Action::Apply => Event::Applied,
                    Action::Checkpoint { .. } => Event::Checkpointed {
                        cancelled: world.cancelled_end,
                        rate_limited: world.limited_end,
                    },
                };
                actions.push(action);
                step = pass.resume(event);
            }
        }
    }
}

fn state(state: RunState) -> SyncEvent {
    SyncEvent::SyncDirStateChanged { remote_id: REMOTE, sync_dir_id: DIR, state }
}

fn status(text: Notice) -> SyncEvent {
    SyncEvent::SyncDirStatus { remote_id: REMOTE, sync_dir_id: DIR, text }
}

fn pending(text: Notice) -> SyncEvent {
    SyncEvent::SyncDirPending { remote_id: REMOTE, sync_dir_id: DIR, text }
}

fn error(reason: Reason) -> SyncEvent {
    SyncEvent::SyncDirError {
        remote_id: REMOTE,
        sync_dir_id: DIR,
        error: SyncError::General("Docs".to_owned(), reason),
    }
}

fn listing() -> SyncEvent {
    state(RunState::Syncing(SyncActivity::Listing))
}

#[test]
fn a_clean_pass_is_synced() {
    let (events, actions, outcome) = pass(fine());
    assert_eq!(
        events,
        vec![listing(), pending(Notice::Applying(2)), state(RunState::Synced)]
    );
    assert_eq!(
        actions,
        vec![
            Action::List,
            Action::Plan,
            Action::Apply,
            Action::Checkpoint { remote: "work".to_owned() },
        ]
    );
    assert_eq!(outcome, Outcome::Synced);
}

#[test]
fn nothing_to_do_is_not_announced() {
    let (events, actions, outcome) = pass(World { actions: 0, ..fine() });
    assert_eq!(events, vec![listing(), state(RunState::Synced)]);
    assert_eq!(actions.len(), 4);
    assert_eq!(outcome, Outcome::Synced);
}

#[test]
fn a_rate_limit_during_the_listing_comes_first() {
    for listing_result in [Ok(()), Err("quota".to_owned())] {
        let (events, actions, outcome) = pass(World {
            limited_listing: true,
            listing: listing_result,
            cancelled_listing: true,
            ..fine()
        });
        assert_eq!(
            events,
            vec![
                listing(),
                error(Reason::Notice(Notice::RateLimitedListing)),
                status(Notice::SkippedRateLimited),
                state(RunState::Warning),
            ]
        );
        assert_eq!(actions, vec![Action::List]);
        assert_eq!(outcome, Outcome::Degraded);
    }
}

#[test]
fn a_listing_that_fails_ends_the_pass() {
    let (events, actions, outcome) =
        pass(World { listing: Err("no route".to_owned()), cancelled_listing: true, ..fine() });
    assert_eq!(
        events,
        vec![
            listing(),
            error(Reason::Message("no route".to_owned())),
            state(RunState::Error),
        ]
    );
    assert_eq!(actions, vec![Action::List]);
    assert_eq!(outcome, Outcome::Aborted);
}

#[test]
fn a_cancelled_pass_is_aborted() {
    let (events, actions, outcome) = pass(World { cancelled_listing: true, ..fine() });
    assert_eq!(events, vec![listing(), status(Notice::Cancelled)]);
    assert_eq!(actions, vec![Action::List]);
    assert_eq!(outcome, Outcome::Aborted);

    let (events, actions, outcome) =
        pass(World { cancelled_end: true, limited_end: true, ..fine() });
    assert_eq!(
        events,
        vec![listing(), pending(Notice::Applying(2)), status(Notice::Cancelled)]
    );
    assert_eq!(actions.len(), 4);
    assert_eq!(outcome, Outcome::Aborted);
}

#[test]
fn a_rate_limit_while_applying_degrades() {
    let (events, _, outcome) = pass(World { limited_end: true, ..fine() });
    assert_eq!(
        events,
        vec![
            listing(),
            pending(Notice::Applying(2)),
            status(Notice::SyncedRateLimited),
            state(RunState::Warning),
        ]
    );
    assert_eq!(outcome, Outcome::Degraded);
}
