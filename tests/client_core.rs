use assemblyline_client::alert::{EntityType, ExtendedScanValues, ItemVerdict, Subtype, Verdict};
use assemblyline_client::auth::{check_api_versions, Authentication};
use assemblyline_client::convert::{
    convert_api_output_list, convert_api_output_map, convert_api_output_string, JsonMap,
};
use assemblyline_client::request::{
    classify_response, handle_outcome, is_session_error, request_url, Envelope, SendOutcome,
    ServerReply, Step,
};
use assemblyline_client::retry::{backoff_delay, RetryLoop};
use assemblyline_client::session::SessionToken;
use assemblyline_client::sha256::Sha256;
use assemblyline_client::Error;

fn s(t: &str) -> String {
    t.to_string()
}

fn reply(status: u16, cookie: Option<&str>, body: &str, envelope: Option<Envelope>) -> SendOutcome {
    SendOutcome::Replied(ServerReply {
        status,
        session_cookie: cookie.map(s),
        body: s(body),
        envelope,
    })
}

fn envelope(message: Option<&str>, version: Option<&str>, response: Option<&str>) -> Envelope {
    Envelope {
        api_error_message: message.map(s),
        api_server_version: version.map(s),
        api_response: response.map(s),
    }
}

fn client_parts(e: &Error) -> (String, u32, Option<String>, Option<String>) {
    match e {
        Error::Client { message, status, api_version, api_response } => {
            (message.clone(), *status, api_version.clone(), api_response.clone())
        }
        _ => panic!("not a client error"),
    }
}

#[test]
fn login_fields_password() {
    let a = Authentication::Password { username: s("alice"), password: s("pw") };
    assert_eq!(
        a.login_fields(),
        vec![(s("user"), s("alice")), (s("password"), s("pw"))]
    );
}

#[test]
fn login_fields_api_key() {
    let a = Authentication::ApiKey { username: s("bob"), key: s("k:123") };
    assert_eq!(a.login_fields(), vec![(s("user"), s("bob")), (s("apikey"), s("k:123"))]);
}

#[test]
fn login_fields_oauth() {
    let a = Authentication::OAuth { provider: s("azure"), token: s("tok") };
    assert_eq!(
        a.login_fields(),
        vec![(s("oauth_provider"), s("azure")), (s("oauth_token"), s("tok"))]
    );
}

#[test]
fn session_messages_are_recognised() {
    for m in [
        "Session rejected",
        "Session not found",
        "Session expired",
        "Invalid source IP for this session",
        "Invalid user agent for this session",
    ] {
        assert!(is_session_error(m));
    }
    assert!(!is_session_error("Session expired "));
    assert!(!is_session_error("session expired"));
    assert!(!is_session_error("Unauthorized"));
    assert!(!is_session_error(""));
}

#[test]
fn unauthorized_session_message_asks_for_login() {
    let step = classify_response(401, s("{}"), Some(envelope(Some("Session expired"), None, None)));
    assert!(matches!(step, Step::Reauthenticate));
}

#[test]
fn unauthorized_other_message_is_terminal() {
    let step = classify_response(
        401,
        s("{}"),
        Some(envelope(Some("Wrong password"), Some("4.5"), Some("detail"))),
    );
    match step {
        Step::Fail(e) => assert_eq!(
            client_parts(&e),
            (s("Wrong password"), 401, Some(s("4.5")), Some(s("detail")))
        ),
        _ => panic!("expected a terminal error"),
    }
}

#[test]
fn unauthorized_without_envelope_uses_body() {
    match classify_response(401, s("<html>denied</html>"), None) {
        Step::Fail(e) => assert_eq!(client_parts(&e), (s("<html>denied</html>"), 401, None, None)),
        _ => panic!("expected a terminal error"),
    }
    match classify_response(401, s("{\"x\":1}"), Some(envelope(None, Some("4.5"), None))) {
        Step::Fail(e) => assert_eq!(client_parts(&e), (s("{\"x\":1}"), 401, None, None)),
        _ => panic!("expected a terminal error"),
    }
}

#[test]
fn gateway_errors_use_envelope_or_body() {
    match classify_response(503, s("{}"), Some(envelope(None, Some("4.5"), None))) {
        Step::Fail(e) => {
            assert_eq!(client_parts(&e), (s("unknown error"), 503, Some(s("4.5")), None))
        }
        _ => panic!("expected a terminal error"),
    }
    match classify_response(502, s("bad gateway"), None) {
        Step::Fail(e) => assert_eq!(client_parts(&e), (s("bad gateway"), 502, None, None)),
        _ => panic!("expected a terminal error"),
    }
    match classify_response(504, s("{}"), Some(envelope(Some("timeout"), None, Some("[]")))) {
        Step::Fail(e) => assert_eq!(client_parts(&e), (s("timeout"), 504, None, Some(s("[]")))),
        _ => panic!("expected a terminal error"),
    }
}

#[test]
fn other_errors_are_terminal() {
    match classify_response(404, s("missing"), None) {
        Step::Fail(e) => assert_eq!(client_parts(&e), (s("missing"), 404, None, None)),
        _ => panic!("expected a terminal error"),
    }
    match classify_response(500, s("{}"), Some(envelope(Some("boom"), None, None))) {
        Step::Fail(e) => assert_eq!(client_parts(&e), (s("boom"), 500, None, None)),
        _ => panic!("expected a terminal error"),
    }
}

#[test]
fn success_statuses() {
    assert!(matches!(classify_response(200, s("{}"), None), Step::Success));
    assert!(matches!(classify_response(204, s(""), None), Step::Success));
    assert!(!matches!(classify_response(300, s(""), None), Step::Success));
    assert!(!matches!(classify_response(199, s(""), None), Step::Success));
}

#[test]
fn cookie_updates_token_on_error_response() {
    let mut session = SessionToken::new();
    assert_eq!(session.read(), None);
    let step = handle_outcome(&mut session, reply(500, Some("fresh"), "oops", None));
    assert!(matches!(step, Step::Fail(_)));
    assert_eq!(session.read(), Some(s("fresh")));
    handle_outcome(&mut session, reply(200, None, "{}", None));
    assert_eq!(session.read(), Some(s("fresh")));
    handle_outcome(&mut session, reply(200, Some("newer"), "{}", None));
    assert_eq!(session.read(), Some(s("newer")));
}

#[test]
fn transport_outcomes() {
    let mut session = SessionToken::new();
    session.replace(s("tok"));
    assert!(matches!(handle_outcome(&mut session, SendOutcome::ConnectFailed), Step::Retry));
    match handle_outcome(&mut session, SendOutcome::SendFailed(Error::TransportError(s("tls")))) {
        Step::Fail(Error::TransportError(d)) => assert_eq!(d, s("tls")),
        _ => panic!("expected a transport error"),
    }
    assert_eq!(session.read(), Some(s("tok")));
}

#[test]
fn ceiling_gives_n_plus_one_sends() {
    for n in [0u32, 1, 3, 10] {
        let mut lp = RetryLoop::new(Some(n));
        let mut session = SessionToken::new();
        let mut sends = 0u32;
        while let Some(_delay) = lp.begin_attempt() {
            sends += 1;
            assert!(matches!(
                handle_outcome(&mut session, SendOutcome::ConnectFailed),
                Step::Retry
            ));
        }
        assert_eq!(sends, n + 1);
        assert!(!lp.can_send());
        let e = RetryLoop::exhausted_error();
        assert_eq!(
            client_parts(&e),
            (s("Max retry reached, could not perform the request."), 429, None, None)
        );
    }
}

#[test]
fn unbounded_session_expiry_then_success() {
    let mut lp = RetryLoop::new(None);
    let mut session = SessionToken::new();
    let mut replies = vec![
        reply(200, Some("t2"), "{}", None),
        reply(401, Some("t1"), "{}", Some(envelope(Some("Session expired"), None, None))),
    ];
    let mut sends = 0;
    let mut logins = 0;
    let result = loop {
        let delay = lp.begin_attempt().expect("unbounded loop never stops");
        if sends == 0 {
            assert_eq!(delay, 0);
        }
        sends += 1;
        match handle_outcome(&mut session, replies.pop().unwrap()) {
            Step::Success => break true,
            Step::Reauthenticate => logins += 1,
            Step::Retry => {}
            Step::Fail(_) => break false,
        }
    };
    assert!(result);
    assert_eq!(sends, 2);
    assert_eq!(logins, 1);
    assert_eq!(session.read(), Some(s("t2")));
}

#[test]
fn backoff_values() {
    assert_eq!(backoff_delay(0), 0);
    assert_eq!(backoff_delay(1), 15_625);
    assert_eq!(backoff_delay(2), 31_250);
    assert_eq!(backoff_delay(6), 500_000);
    assert_eq!(backoff_delay(7), 1_000_000);
    assert_eq!(backoff_delay(8), 2_000_000);
    assert_eq!(backoff_delay(9), 2_000_000);
    assert_eq!(backoff_delay(u64::MAX), 2_000_000);
    let mut lp = RetryLoop::new(Some(2));
    assert_eq!(lp.begin_attempt(), Some(0));
    assert_eq!(lp.begin_attempt(), Some(15_625));
    assert_eq!(lp.begin_attempt(), Some(31_250));
    assert_eq!(lp.begin_attempt(), None);
}

fn map_with(value: Option<serde_json::Value>) -> JsonMap {
    let mut m = JsonMap::new();
    m.insert(s("api_error_message"), serde_json::Value::String(s("")));
    if let Some(v) = value {
        m.insert(s("api_response"), v);
    }
    m
}

#[test]
fn convert_string() {
    let r = convert_api_output_string(map_with(Some(serde_json::Value::String(s("abc")))));
    assert_eq!(r.ok(), Some(s("abc")));
    assert!(matches!(convert_api_output_string(map_with(None)), Err(Error::MalformedResponse)));
    assert!(matches!(
        convert_api_output_string(map_with(Some(serde_json::Value::Bool(true)))),
        Err(Error::MalformedResponse)
    ));
    assert!(matches!(
        convert_api_output_string(map_with(Some(serde_json::Value::Array(vec![])))),
        Err(Error::MalformedResponse)
    ));
}

#[test]
fn convert_map() {
    let mut inner = JsonMap::new();
    inner.insert(s("session_duration"), serde_json::Value::from(60));
    let r = convert_api_output_map(map_with(Some(serde_json::Value::Object(inner.clone()))));
    assert_eq!(r.ok(), Some(inner));
    assert!(matches!(convert_api_output_map(map_with(None)), Err(Error::MalformedResponse)));
    assert!(matches!(
        convert_api_output_map(map_with(Some(serde_json::Value::String(s("x"))))),
        Err(Error::MalformedResponse)
    ));
}

#[test]
fn convert_list() {
    let items = vec![serde_json::Value::String(s("v4")), serde_json::Value::Null];
    let r = convert_api_output_list(map_with(Some(serde_json::Value::Array(items.clone()))));
    assert_eq!(r.ok(), Some(items));
    assert!(matches!(convert_api_output_list(map_with(None)), Err(Error::MalformedResponse)));
    assert!(matches!(
        convert_api_output_list(map_with(Some(serde_json::Value::Null))),
        Err(Error::MalformedResponse)
    ));
}

const HEX: &str = "e3b0c44298fc1c149afbf4c8996fb92427ae41e4649b934ca495991b7852b855";

#[test]
fn sha256_accepts_hex() {
    assert_eq!(Sha256::parse(HEX).ok().map(|h| h.to_string()), Some(s(HEX)));
    let upper = HEX.to_uppercase();
    assert_eq!(Sha256::parse(&upper).ok().map(|h| h.to_string()), Some(s(HEX)));
    let padded = format!("  \t{}\n ", upper);
    let h = Sha256::parse(&padded).ok().unwrap();
    assert_eq!(h.as_str(), HEX);
    assert_eq!(&*h, HEX);
    let parsed: Sha256 = HEX.parse().ok().unwrap();
    assert_eq!(parsed.as_str(), HEX);
}

#[test]
fn sha256_rejects_others() {
    let bad = [
        s(""),
        s(&HEX[..63]),
        format!("{}0", HEX),
        format!("{}g", &HEX[..63]),
        format!("{} {}", &HEX[..32], &HEX[32..]),
        format!("{}é", &HEX[..63]),
    ];
    for b in bad.iter() {
        assert!(matches!(Sha256::parse(b), Err(Error::InvalidSha256)), "{}", b);
    }
}

#[test]
fn api_versions() {
    assert!(check_api_versions(&vec![Some(s("v3")), None, Some(s("v4"))]).is_ok());
    match check_api_versions(&vec![Some(s("v3")), None, Some(s("V4"))]) {
        Err(e) => assert_eq!(
            client_parts(&e),
            (s("Supported APIS (v4) are not available"), 400, None, None)
        ),
        Ok(()) => panic!("v4 is not listed"),
    }
    assert!(check_api_versions(&vec![]).is_err());
}

#[test]
fn urls() {
    assert_eq!(request_url("https://al.local", "api/"), s("https://al.local/api/"));
    assert_eq!(request_url("", ""), s("/"));
}

#[test]
fn error_from_failure() {
    let e = Error::from_failure(Some(404), s("not found"));
    assert_eq!(client_parts(&e), (s("not found"), 404, None, None));
    match Error::from_failure(None, s("dns")) {
        Error::TransportError(d) => assert_eq!(d, s("dns")),
        _ => panic!("expected a transport error"),
    }
}

#[test]
fn error_client_error() {
    let e = Error::client_error(s("nope"), 418);
    assert_eq!(client_parts(&e), (s("nope"), 418, None, None));
}

#[test]
fn enum_texts() {
    assert_eq!(ExtendedScanValues::Incomplete.as_str(), "incomplete");
    assert_eq!(ExtendedScanValues::parse("complete"), Some(ExtendedScanValues::Complete));
    assert_eq!(ExtendedScanValues::parse("Complete"), None);
    assert_eq!(ItemVerdict::parse("suspicious"), Some(ItemVerdict::Suspicious));
    assert_eq!(ItemVerdict::Malicious.as_str(), "malicious");
    assert_eq!(EntityType::parse("workflow"), Some(EntityType::Workflow));
    assert_eq!(EntityType::User.as_str(), "user");
    assert_eq!(Subtype::parse("IMP"), Some(Subtype::Imp));
    assert_eq!(Subtype::parse("imp"), None);
    assert_eq!(Subtype::Ta.as_str(), "TA");
    let v = Verdict::default();
    assert!(v.malicious.is_empty() && v.non_malicious.is_empty());
}

#[test]
fn error_from_reqwest_failure() {
    let err = reqwest::Client::new().get("not a url").build().unwrap_err();
    let text = err.to_string();
    match Error::from_reqwest(err) {
        Error::TransportError(d) => {
            assert_eq!(d, text);
            assert!(d.starts_with("builder error"));
        }
        _ => panic!("expected a transport error"),
    }
}

#[test]
fn sha256_from_str_normalises() {
    let padded = format!("  {}\n", "AbCdEf0123456789".repeat(4));
    let h: Sha256 = padded.parse().ok().unwrap();
    assert_eq!(&*h, "abcdef0123456789".repeat(4));
    let again: Sha256 = h.to_string().parse().ok().unwrap();
    assert_eq!(&*again, &*h);
    let upper: Sha256 = padded.to_ascii_uppercase().parse().ok().unwrap();
    assert_eq!(&*upper, &*h);
    assert!(h.chars().all(|c| matches!(c, '0'..='9' | 'a'..='f')));
    for b in [
        "a".repeat(63),
        "a".repeat(65),
        "g".repeat(64),
        format!("{} {}", "a".repeat(32), "a".repeat(31)),
        String::new(),
    ] {
        assert!(matches!(b.parse::<Sha256>(), Err(Error::InvalidSha256)));
    }
}
