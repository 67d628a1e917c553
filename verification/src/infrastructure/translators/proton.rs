//! Reads the error messages of the native Proton backend.
//!
//! Proton reports errors as `Code=NNNN`. The codes that matter here:
//! 401 for an expired session, 10013 for a refresh token that the server
//! revoked, 2500 for a name that already exists, 2501 for a missing one and
//! 429 for too many requests. The rest is told by the words around them.

use crate::domain::backend_events::{BackendEvent, EventTranslator, EventView, Operation};
use crate::text::{ascii_lowercase, chars_of, contains, has, law_held_in_the_whole, lower_all};
use vstd::prelude::*;

verus! {

/// Reads the error messages of the native Proton backend.
pub struct ProtonTranslator;

/// The session is dead: only a new login helps. `de-auth` marks every
/// revocation that the server drives, whatever its code.
pub open spec fn says_auth_expired(msg: Seq<char>) -> bool {
    let low = lower_all(msg);
    ||| has(msg, "Code=401"@)
    ||| has(msg, "Code=10013"@)
    ||| has(low, "unauthenticated"@)
    ||| has(low, "unauthorized"@)
    ||| has(low, "invalid access token"@)
    ||| has(low, "invalid refresh token"@)
    ||| has(low, "session expired"@)
    ||| has(low, "de-auth"@)
}

/// The server asks for fewer requests.
pub open spec fn says_rate_limited(msg: Seq<char>) -> bool {
    has(msg, "Code=429"@) || has(lower_all(msg), "too many requests"@)
}

/// The name is taken.
pub open spec fn says_exists(msg: Seq<char>) -> bool {
    has(msg, "Code=2500"@) || has(lower_all(msg), "already exists"@)
}

/// There is nothing of that name.
pub open spec fn says_not_found(msg: Seq<char>) -> bool {
    has(lower_all(msg), "not found"@) || has(msg, "Code=2501"@)
}

/// The server was not reached, or the connection broke: worth another try.
pub open spec fn says_transient(msg: Seq<char>) -> bool {
    let low = lower_all(msg);
    ||| has(low, "connection reset"@)
    ||| has(low, "broken pipe"@)
    ||| has(low, "eof"@)
    ||| has(low, "timeout"@)
    ||| has(low, "no such host"@)
    ||| has(low, "dial tcp"@)
    ||| has(low, "network is unreachable"@)
    ||| has(low, "no route to host"@)
    ||| has(low, "connection refused"@)
    ||| has(low, "received no response from api"@)
    ||| has(low, "network error while communicating with api"@)
}

/// What `msg` means when it comes from `op`: the first that applies.
pub open spec fn proton_event(op: Operation, msg: Seq<char>) -> EventView {
    if says_auth_expired(msg) {
        EventView::AuthExpired
    } else if says_rate_limited(msg) {
        EventView::RateLimited
    } else if op == Operation::Mkdir && says_exists(msg) {
        EventView::AlreadyExists
    } else if says_not_found(msg) {
        EventView::NotFound
    } else if says_transient(msg) {
        EventView::TransientNetwork
    } else {
        EventView::Other(msg)
    }
}

impl EventTranslator for ProtonTranslator {
    fn classify(&self, op: Operation, msg: &str) -> (r: BackendEvent)
        ensures
            r@ == proton_event(op, msg@),
    {
        let raw = chars_of(msg);
        let low = ascii_lowercase(&raw);

        if contains(&raw, "Code=401") || contains(&raw, "Code=10013")
            || contains(&low, "unauthenticated") || contains(&low, "unauthorized")
            || contains(&low, "invalid access token") || contains(&low, "invalid refresh token")
            || contains(&low, "session expired") || contains(&low, "de-auth") {
            return BackendEvent::AuthExpired;
        }
        if contains(&raw, "Code=429") || contains(&low, "too many requests") {
            return BackendEvent::RateLimited;
        }
        if op == Operation::Mkdir && (contains(&raw, "Code=2500") || contains(
            &low,
            "already exists",
        )) {
            return BackendEvent::AlreadyExists;
        }
        if contains(&low, "not found") || contains(&raw, "Code=2501") {
            return BackendEvent::NotFound;
        }
        if contains(&low, "connection reset") || contains(&low, "broken pipe") || contains(
            &low,
            "eof",
        ) || contains(&low, "timeout") || contains(&low, "no such host") || contains(
            &low,
            "dial tcp",
        ) || contains(&low, "network is unreachable") || contains(&low, "no route to host")
            || contains(&low, "connection refused") || contains(
            &low,
            "received no response from api",
        ) || contains(&low, "network error while communicating with api") {
            return BackendEvent::TransientNetwork;
        }
        BackendEvent::Other(msg.to_owned())
    }
}

/// Whether a message demands a new login does not depend on what was being
/// done when it came.
pub proof fn law_auth_ignores_operation(a: Operation, b: Operation, msg: Seq<char>)
    ensures
        (proton_event(a, msg) is AuthExpired) == (proton_event(b, msg) is AuthExpired),
        (proton_event(a, msg) is AuthExpired) == says_auth_expired(msg),
{
}

/// A message that speaks of a network fault never demands a new login, unless
/// it also says that the session is dead; and without any of the stronger
/// signs it is worth another try.
pub proof fn law_network_faults_are_retried(op: Operation, msg: Seq<char>)
    requires
        says_transient(msg),
        !says_auth_expired(msg),
    ensures
        !(proton_event(op, msg) is AuthExpired),
        !says_rate_limited(msg) && !says_exists(msg) && !says_not_found(msg)
            ==> proton_event(op, msg) == EventView::TransientNetwork,
{
}

/// Only a folder that is being created can turn out to exist already.
pub proof fn law_exists_only_for_mkdir(op: Operation, msg: Seq<char>)
    ensures
        proton_event(op, msg) is AlreadyExists ==> op == Operation::Mkdir,
{
}

/// A message demands a new login exactly where it holds one of the signs of a
/// dead session: a code as it is written, or a word in whatever case.
pub proof fn law_signs_of_a_dead_session(op: Operation, msg: Seq<char>)
    ensures
        proton_event(op, msg) is AuthExpired <==> (has(msg, "Code=401"@) || has(
            msg,
            "Code=10013"@,
        ) || has(lower_all(msg), "unauthenticated"@) || has(lower_all(msg), "unauthorized"@) || has(
            lower_all(msg),
            "invalid access token"@,
        ) || has(lower_all(msg), "invalid refresh token"@) || has(
            lower_all(msg),
            "session expired"@,
        ) || has(lower_all(msg), "de-auth"@)),
{
}

/// Of a message that demands no login: it speaks of a rate limit exactly where
/// it holds a sign of one; otherwise it says, to one who creates a folder, that
/// the name is taken exactly where it holds a sign of that; otherwise that there
/// is nothing of the name exactly where it holds a sign of that.
pub proof fn law_signs_in_their_order(op: Operation, msg: Seq<char>)
    requires
        !(proton_event(op, msg) is AuthExpired),
    ensures
        ({
            let event = proton_event(op, msg);
            let low = lower_all(msg);
            let limited = has(msg, "Code=429"@) || has(low, "too many requests"@);
            let taken = op == Operation::Mkdir && (has(msg, "Code=2500"@) || has(
                low,
                "already exists"@,
            ));
            let absent = has(msg, "Code=2501"@) || has(low, "not found"@);
            let broken = has(low, "connection reset"@) || has(low, "broken pipe"@) || has(
                low,
                "eof"@,
            ) || has(low, "timeout"@) || has(low, "no such host"@) || has(low, "dial tcp"@) || has(
                low,
                "network is unreachable"@,
            ) || has(low, "no route to host"@) || has(low, "connection refused"@) || has(
                low,
                "received no response from api"@,
            ) || has(low, "network error while communicating with api"@);
            &&& event is RateLimited <==> limited
            &&& event is AlreadyExists <==> !limited && taken
            &&& event is NotFound <==> !limited && !taken && absent
            &&& event is TransientNetwork <==> !limited && !taken && !absent && broken
            &&& event is Other <==> !limited && !taken && !absent && !broken
            &&& event matches EventView::Other(words) ==> words == msg
        }),
{
}

/// What stands around a message does not hide that it demands a new login.
pub proof fn law_a_dead_session_is_not_talked_over(
    op: Operation,
    before: Seq<char>,
    msg: Seq<char>,
    after: Seq<char>,
)
    requires
        proton_event(op, msg) is AuthExpired,
    ensures
        proton_event(op, before + msg + after) is AuthExpired,
{
    let whole = before + msg + after;
    assert(lower_all(whole) =~= lower_all(before) + lower_all(msg) + lower_all(after));
    assert forall|needle: Seq<char>| #[trigger] has(msg, needle) implies has(whole, needle) by {
        law_held_in_the_whole(before, msg, after, needle);
    }
    assert forall|needle: Seq<char>| #[trigger] has(lower_all(msg), needle) implies has(
        lower_all(whole),
        needle,
    ) by {
        law_held_in_the_whole(lower_all(before), lower_all(msg), lower_all(after), needle);
    }
}

} // verus!
