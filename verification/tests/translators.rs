use celeste::domain::backend_events::{BackendEvent, EventTranslator, Operation};
use celeste::infrastructure::translators::proton::ProtonTranslator;

/// What go-proton-api says when the application starts before names can be
/// resolved.
const DNS_FAILURE: &str = "received no response from API: Get \
    \"https://mail.proton.me/api/core/v4/users\": dial tcp: \
    lookup mail.proton.me: no such host";

#[test]
fn connectivity_failures_are_transient_not_auth() {
    for msg in [
        DNS_FAILURE,
        "network error while communicating with API: connection refused",
        "dial tcp 1.2.3.4:443: connect: network is unreachable",
        "dial tcp 1.2.3.4:443: connect: no route to host",
    ] {
        assert_eq!(
            ProtonTranslator.classify(Operation::List, msg),
            BackendEvent::TransientNetwork,
            "should be retryable: {msg}",
        );
        assert!(
            !ProtonTranslator.is_auth_failure(msg),
            "must never demand reauth: {msg}",
        );
    }
}

#[test]
fn revoked_sessions_still_route_to_reauth() {
    for msg in [
        "failed to refresh auth, de-auth: Code=10013",
        "Code=401 unauthorized",
        "invalid refresh token",
    ] {
        assert_eq!(
            ProtonTranslator.classify(Operation::Auth, msg),
            BackendEvent::AuthExpired,
            "should demand reauth: {msg}",
        );
        assert!(ProtonTranslator.is_auth_failure(msg));
    }
}

#[test]
fn keyring_faults_are_not_auth_failures() {
    let msg = "keyring read failed: Platform secure storage failure: \
               Crypto error: Unpad Error";
    assert!(!ProtonTranslator.is_auth_failure(msg));
}

#[test]
fn every_kind_of_message_is_told_apart() {
    let t = ProtonTranslator;
    let of = |op: Operation, msg: &str| t.classify(op, msg);
    assert_eq!(of(Operation::List, "SESSION EXPIRED"), BackendEvent::AuthExpired);
    assert_eq!(of(Operation::List, "Unauthenticated"), BackendEvent::AuthExpired);
    assert_eq!(of(Operation::List, "Invalid Access Token"), BackendEvent::AuthExpired);
    assert_eq!(of(Operation::List, "Code=429"), BackendEvent::RateLimited);
    assert_eq!(of(Operation::List, "Too Many Requests"), BackendEvent::RateLimited);
    assert_eq!(of(Operation::Mkdir, "Code=2500"), BackendEvent::AlreadyExists);
    assert_eq!(of(Operation::Mkdir, "A folder Already Exists"), BackendEvent::AlreadyExists);
    assert_eq!(of(Operation::List, "Code=2501"), BackendEvent::NotFound);
    assert_eq!(of(Operation::List, "link Not Found"), BackendEvent::NotFound);
    assert_eq!(of(Operation::List, "unexpected EOF"), BackendEvent::TransientNetwork);
    assert_eq!(
        of(Operation::List, "something else"),
        BackendEvent::Other("something else".to_owned())
    );
}

#[test]
fn codes_are_spelled_exactly_and_words_in_any_case() {
    let t = ProtonTranslator;
    assert_eq!(
        t.classify(Operation::Auth, "code=401"),
        BackendEvent::Other("code=401".to_owned())
    );
    assert_eq!(t.classify(Operation::Auth, "BROKEN PIPE"), BackendEvent::TransientNetwork);
}

#[test]
fn only_mkdir_finds_that_something_exists() {
    let t = ProtonTranslator;
    for op in [Operation::Auth, Operation::List] {
        assert_eq!(
            t.classify(op, "already exists"),
            BackendEvent::Other("already exists".to_owned())
        );
    }
}

#[test]
fn the_stronger_sign_decides() {
    let t = ProtonTranslator;
    assert_eq!(
        t.classify(Operation::List, "dial tcp: Code=401"),
        BackendEvent::AuthExpired
    );
    assert_eq!(
        t.classify(Operation::List, "too many requests: not found"),
        BackendEvent::RateLimited
    );
    assert_eq!(
        t.classify(Operation::Mkdir, "already exists, timeout"),
        BackendEvent::AlreadyExists
    );
}

#[test]
fn a_dead_session_is_told_in_any_operation() {
    for op in [Operation::Auth, Operation::List, Operation::Mkdir] {
        assert_eq!(
            ProtonTranslator.classify(op, "Code=10013: already exists"),
            BackendEvent::AuthExpired
        );
    }
}
