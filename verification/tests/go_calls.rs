use celeste::go::proton::{
    list_recursive, login, logout, permanent_delete_link, resume_session, root_link_id,
    save_session, save_session_if_rotated, stat, stat_answer, Entry, LoginParams,
};
use celeste::go::{c_bytes, call_json, invoke_raw, rpc, Envelope, Shim};

fn envelope(ok: bool, data: Option<serde_json::Value>, error: &str) -> Envelope {
    Envelope { ok, data, error: error.to_owned() }
}

#[test]
fn payloads_are_json() {
    let text = |r: celeste::go::Request| (r.shim, r.payload().unwrap());
    assert_eq!(text(logout("a")), (Shim::Logout, "{\"uid\":\"a\"}".to_owned()));
    assert_eq!(text(root_link_id("a")), (Shim::RootLinkId, "{\"uid\":\"a\"}".to_owned()));
    assert_eq!(
        text(save_session("a", "/p")),
        (Shim::SaveSession, "{\"path\":\"/p\",\"uid\":\"a\"}".to_owned())
    );
    assert_eq!(
        text(save_session_if_rotated("a", "/p")),
        (Shim::SaveSessionIfRotated, "{\"path\":\"/p\",\"uid\":\"a\"}".to_owned())
    );
    assert_eq!(
        text(resume_session("/p")),
        (Shim::ResumeSession, "{\"path\":\"/p\"}".to_owned())
    );
    assert_eq!(
        text(stat("a", "l")),
        (Shim::Stat, "{\"link_id\":\"l\",\"uid\":\"a\"}".to_owned())
    );
    assert_eq!(
        text(list_recursive("a", "")),
        (Shim::ListRecursive, "{\"link_id\":\"\",\"uid\":\"a\"}".to_owned())
    );
    assert_eq!(
        text(permanent_delete_link("a", "l")),
        (Shim::PermanentDeleteLink, "{\"link_id\":\"l\",\"uid\":\"a\"}".to_owned())
    );
}

#[test]
fn payloads_are_escaped() {
    let r = logout("q\"\\\n\0ä");
    let payload = r.payload().unwrap();
    assert_eq!(payload, "{\"uid\":\"q\\\"\\\\\\n\\u0000ä\"}");
    assert!(!payload.contains('\0'));
}

#[test]
fn a_login_leaves_out_what_is_empty() {
    let mut params = LoginParams {
        username: "me".to_owned(),
        password: "pw".to_owned(),
        mailbox_password: String::new(),
        two_fa: String::new(),
    };
    let text = |p: &LoginParams| login(p).payload().unwrap();
    assert_eq!(login(&params).shim, Shim::Login);
    assert_eq!(text(&params), "{\"username\":\"me\",\"password\":\"pw\"}");
    params.two_fa = "123".to_owned();
    assert_eq!(text(&params), "{\"username\":\"me\",\"password\":\"pw\",\"two_fa\":\"123\"}");
    params.mailbox_password = "mb".to_owned();
    assert_eq!(
        text(&params),
        "{\"username\":\"me\",\"password\":\"pw\",\"mailbox_password\":\"mb\",\"two_fa\":\"123\"}"
    );
}

#[test]
fn envelopes_hold_a_payload_or_an_error() {
    let data = Some(serde_json::Value::Bool(true));
    assert_eq!(invoke_raw(Ok(envelope(true, data.clone(), "")), "b"), Ok(data.clone()));
    assert_eq!(invoke_raw(Ok(envelope(true, None, "")), "b"), Ok(None));
    assert_eq!(
        invoke_raw(Ok(envelope(false, data, "bad password")), "b"),
        Err("bad password".to_owned())
    );
    assert_eq!(
        invoke_raw(Err("expected value".to_owned()), "<html>"),
        Err("invalid envelope from Go: expected value — body was: <html>".to_owned())
    );
}

#[test]
fn a_call_that_owes_a_value_wants_one() {
    assert_eq!(call_json(Ok(Some(Ok(7)))), Ok(7));
    assert_eq!(
        call_json::<u8>(Ok(None)),
        Err("shim returned OK but no data to deserialise".to_owned())
    );
    assert_eq!(
        call_json::<u8>(Ok(Some(Err("not a number".to_owned())))),
        Err("invalid response shape: not a number".to_owned())
    );
    assert_eq!(call_json::<u8>(Err("e".to_owned())), Err("e".to_owned()));
}

#[test]
fn only_status_200_is_a_result() {
    assert_eq!(rpc(200, "{}".to_owned()), Ok("{}".to_owned()));
    assert_eq!(rpc(404, "{}".to_owned()), Err("{}".to_owned()));
    assert_eq!(rpc(0, "x".to_owned()), Err("x".to_owned()));
}

#[test]
fn c_strings_end_with_a_zero() {
    assert_eq!(c_bytes("aä"), vec![0x61, 0xc3, 0xa4, 0]);
    assert_eq!(c_bytes(""), vec![0]);
}

#[test]
fn a_payload_is_whole_as_a_c_string() {
    let bytes = c_bytes(&logout("a\0b\u{7f}ä€").payload().unwrap());
    assert_eq!(bytes.iter().position(|b| *b == 0), Some(bytes.len() - 1));
}

#[test]
fn control_characters_are_spelled_out() {
    let r = logout("\u{8}\t\n\u{c}\r\u{1}\u{1f}\u{7f}/");
    assert_eq!(
        r.payload().unwrap(),
        "{\"uid\":\"\\b\\t\\n\\f\\r\\u0001\\u001f\u{7f}/\"}"
    );
}

#[test]
fn a_link_that_is_not_active_is_nothing() {
    let entry = Entry {
        link_id: "l".to_owned(),
        parent_link_id: "p".to_owned(),
        name: "n".to_owned(),
        is_dir: false,
        size: 3,
        mod_time_unix: 4,
        mime_type: "text/plain".to_owned(),
    };
    assert_eq!(stat_answer(Ok(None)), Ok(None));
    assert_eq!(stat_answer(Ok(Some(Ok(None)))), Ok(None));
    assert_eq!(stat_answer(Ok(Some(Ok(Some(entry.clone()))))), Ok(Some(entry)));
    assert_eq!(
        stat_answer(Ok(Some(Err("no map".to_owned())))),
        Err("invalid response shape: no map".to_owned())
    );
    assert_eq!(stat_answer(Err("gone".to_owned())), Err("gone".to_owned()));
}
