//! What a sync pass reports while it runs.

use crate::domain::remote::RemoteId;
use crate::domain::run_state::RunState;
use crate::domain::sync::{SyncDirId, SyncError};
use vstd::prelude::*;

verus! {

/// A sentence for the user. The words are chosen where the language is known.
#[derive(Clone, Copy, Debug, PartialEq, Eq, Structural)]
pub enum Notice {
    /// Rate-limit warnings came up during the listing; the pass is skipped.
    RateLimitedListing,
    /// The pass was skipped because the provider limits the rate.
    SkippedRateLimited,
    /// The pass was cancelled.
    Cancelled,
    /// So many actions are about to be applied.
    Applying(usize),
    /// The files are in step, but the provider limits the rate.
    SyncedRateLimited,
}

/// Why something failed: a sentence of ours, or the words of the backend.
#[derive(Clone, Debug, PartialEq, Eq)]
pub enum Reason {
    Notice(Notice),
    Message(String),
}

/// What a sync pass reports while it runs.
#[derive(Clone, Debug, PartialEq, Eq)]
pub enum SyncEvent {
    SyncDirPending { remote_id: RemoteId, sync_dir_id: SyncDirId, text: Notice },
    SyncDirError { remote_id: RemoteId, sync_dir_id: SyncDirId, error: SyncError },
    SyncDirStatus { remote_id: RemoteId, sync_dir_id: SyncDirId, text: Notice },
    SyncDirStateChanged { remote_id: RemoteId, sync_dir_id: SyncDirId, state: RunState },
}

/// A [`Reason`] as a mathematical value.
pub enum ReasonView {
    Notice(Notice),
    Message(Seq<char>),
}

/// A [`SyncEvent`] as a mathematical value.
pub enum SyncEventView {
    Pending { remote: RemoteId, dir: SyncDirId, text: Notice },
    Failed { remote: RemoteId, dir: SyncDirId, path: Seq<char>, reason: ReasonView },
    Status { remote: RemoteId, dir: SyncDirId, text: Notice },
    State { remote: RemoteId, dir: SyncDirId, state: RunState },
}

impl View for Reason {
    type V = ReasonView;

    open spec fn view(&self) -> ReasonView {
        match self {
            Reason::Notice(n) => ReasonView::Notice(*n),
            Reason::Message(m) => ReasonView::Message(m@),
        }
    }
}

impl View for SyncEvent {
    type V = SyncEventView;

    open spec fn view(&self) -> SyncEventView {
        match self {
            SyncEvent::SyncDirPending { remote_id, sync_dir_id, text } => SyncEventView::Pending {
                remote: *remote_id,
                dir: *sync_dir_id,
                text: *text,
            },
            SyncEvent::SyncDirError { remote_id, sync_dir_id, error } => match error {
                SyncError::General(path, reason) => SyncEventView::Failed {
                    remote: *remote_id,
                    dir: *sync_dir_id,
                    path: path@,
                    reason: reason@,
                },
            },
            SyncEvent::SyncDirStatus { remote_id, sync_dir_id, text } => SyncEventView::Status {
                remote: *remote_id,
                dir: *sync_dir_id,
                text: *text,
            },
            SyncEvent::SyncDirStateChanged { remote_id, sync_dir_id, state } => {
                SyncEventView::State { remote: *remote_id, dir: *sync_dir_id, state: *state }
            },
        }
    }
}

impl DeepView for SyncEvent {
    type V = SyncEventView;

    open spec fn deep_view(&self) -> SyncEventView {
        self@
    }
}

} // verus!
