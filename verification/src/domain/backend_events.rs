//! What an error message of a backend means.

use vstd::prelude::*;

verus! {

/// What was being done when the message came.
#[derive(Clone, Copy, Debug, PartialEq, Eq, Structural)]
pub enum Operation {
    Auth,
    List,
    Mkdir,
}

/// What an error message of a backend means.
#[derive(Clone, Debug, PartialEq, Eq)]
pub enum BackendEvent {
    AuthExpired,
    RateLimited,
    AlreadyExists,
    NotFound,
    TransientNetwork,
    /// None of the others; holds the message.
    Other(String),
}

/// A [`BackendEvent`] as a mathematical value.
pub enum EventView {
    AuthExpired,
    RateLimited,
    AlreadyExists,
    NotFound,
    TransientNetwork,
    Other(Seq<char>),
}

impl View for BackendEvent {
    type V = EventView;

    open spec fn view(&self) -> EventView {
        match self {
            BackendEvent::AuthExpired => EventView::AuthExpired,
            BackendEvent::RateLimited => EventView::RateLimited,
            BackendEvent::AlreadyExists => EventView::AlreadyExists,
            BackendEvent::NotFound => EventView::NotFound,
            BackendEvent::TransientNetwork => EventView::TransientNetwork,
            BackendEvent::Other(msg) => EventView::Other(msg@),
        }
    }
}

/// Reads the error messages of one backend.
pub trait EventTranslator {
    /// What `msg` means when it comes from `op`.
    fn classify(&self, op: Operation, msg: &str) -> BackendEvent;

    /// Whether `msg` says that only a new login helps: that is what it means
    /// when it comes from a login.
    fn is_auth_failure(&self, msg: &str) -> (r: bool)
        ensures
            exists|event: BackendEvent| #[trigger]
                call_ensures(Self::classify, (self, Operation::Auth, msg), event) && r == (
                event is AuthExpired),
    {
        match self.classify(Operation::Auth, msg) {
            BackendEvent::AuthExpired => true,
            _ => false,
        }
    }
}

} // verus!
