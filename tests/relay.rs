use metadata_relay::relay::{begin, finish, outcome_envelope, redirect_step, rejection_envelope, settle, settle_parsed, Envelope, FetchFailure, FetchOutcome, Received, RedirectStep, Step, MAX_REDIRECTS};
use metadata_relay::egress::ValidationError;

/// The wire form of an envelope, as the HTTP layer writes it.
fn wire(e: Envelope) -> String {
    match e {
        Envelope::Success(v) => {
            format!(r#"{{"status":"success","metadata":{}}}"#, serde_json::to_string(&v).unwrap())
        }
        Envelope::Error(s) => {
            format!(r#"{{"error":{}}}"#, serde_json::to_string(&serde_json::Value::String(s)).unwrap())
        }
    }
}

fn respond(raw: &str, received: Received) -> String {
    match begin(raw) {
        Step::Respond(e) => wire(e),
        Step::Fetch(t) => {
            assert_eq!(t.as_str(), raw);
            wire(finish(received))
        }
    }
}

#[test]
fn scenario_success() {
    let body = br#"{"name":"token"}"#.to_vec();
    assert_eq!(
        respond("https://example.com/meta.json", Received::Body(body)),
        r#"{"status":"success","metadata":{"name":"token"}}"#
    );
    match finish(Received::Body(br#"{"name":"token"}"#.to_vec())) {
        Envelope::Success(v) => assert_eq!(v, serde_json::from_str::<serde_json::Value>(r#"{"name":"token"}"#).unwrap()),
        Envelope::Error(m) => panic!("{}", m),
    }
}

#[test]
fn scenario_http_rejected() {
    assert_eq!(
        respond("http://example.com/meta.json", Received::NoResponse),
        r#"{"error":"URL validation failed: Only HTTPS URLs are allowed"}"#
    );
}

#[test]
fn scenario_unlisted_domain() {
    assert_eq!(
        respond("https://attacker.test/", Received::NoResponse),
        r#"{"error":"URL validation failed: Domain not in allowlist: attacker.test"}"#
    );
}

#[test]
fn scenario_unreachable() {
    assert_eq!(
        respond("https://ipfs.io/ipfs/x", Received::NoResponse),
        r#"{"error":"Failed to fetch from URL"}"#
    );
}

#[test]
fn scenario_not_json() {
    assert_eq!(
        respond("https://arweave.net/tx", Received::Body(b"<html>hi</html>".to_vec())),
        r#"{"error":"Failed to parse metadata"}"#
    );
}

#[test]
fn invalid_format_envelope() {
    assert_eq!(respond("::not a url", Received::NoResponse), r#"{"error":"URL validation failed: Invalid URL format"}"#);
}

#[test]
fn unreadable_body_is_a_parse_failure() {
    assert!(matches!(settle(Received::UnreadableBody), FetchOutcome::Failure(FetchFailure::ParseFailed)));
}

#[test]
fn any_json_value_is_metadata() {
    for (body, value) in [
        ("[1,2,3]", serde_json::Value::Array(vec![1.into(), 2.into(), 3.into()])),
        ("\"s\"", serde_json::Value::String("s".to_string())),
        ("null", serde_json::Value::Null),
        (" true ", serde_json::Value::Bool(true)),
    ] {
        match settle(Received::Body(body.as_bytes().to_vec())) {
            FetchOutcome::Success(v) => assert_eq!(v, value),
            FetchOutcome::Failure(_) => panic!("{} refused", body),
        }
    }
}

#[test]
fn malformed_json_is_a_parse_failure() {
    for body in ["", "{", "{\"a\":1} x", "nope"] {
        assert!(matches!(settle(Received::Body(body.as_bytes().to_vec())), FetchOutcome::Failure(FetchFailure::ParseFailed)), "{}", body);
    }
}

#[test]
fn outcome_envelopes() {
    assert_eq!(wire(outcome_envelope(FetchOutcome::Failure(FetchFailure::FetchFailed))), r#"{"error":"Failed to fetch from URL"}"#);
    assert_eq!(wire(outcome_envelope(FetchOutcome::Success(serde_json::Value::Null))), r#"{"status":"success","metadata":null}"#);
    assert_eq!(wire(rejection_envelope(&ValidationError::NoHost)), r#"{"error":"URL validation failed: No host in URL"}"#);
    assert_eq!(FetchFailure::ParseFailed.message(), "Failed to parse metadata");
}

#[test]
fn settle_parsed_keeps_the_parsed_value() {
    let v: serde_json::Value = serde_json::from_str(r#"{"name":"token","n":[1,2]}"#).unwrap();
    match settle_parsed(Ok(v.clone())) {
        FetchOutcome::Success(m) => assert_eq!(m, v),
        FetchOutcome::Failure(_) => panic!("parsed value refused"),
    }
    let err = serde_json::from_str::<serde_json::Value>("{").unwrap_err();
    assert!(matches!(settle_parsed(Err(err)), FetchOutcome::Failure(FetchFailure::ParseFailed)));
}

#[test]
fn equal_bodies_give_equal_envelopes() {
    let a = wire(finish(Received::Body(br#"{"b":1,"a":[true]}"#.to_vec())));
    let b = wire(finish(Received::Body(br#"{"b":1,"a":[true]}"#.to_vec())));
    assert_eq!(a, b);
}

#[test]
fn redirects_follow_only_approved_targets() {
    assert_eq!(MAX_REDIRECTS, 10);
    assert_eq!(redirect_step(0, "https://ipfs.io/ipfs/abc"), RedirectStep::Follow);
    assert_eq!(redirect_step(9, "https://opensea.io/"), RedirectStep::Follow);
    assert_eq!(redirect_step(0, "http://ipfs.io/"), RedirectStep::Stop);
    assert_eq!(redirect_step(3, "https://169.254.169.254/latest/meta-data"), RedirectStep::Stop);
    assert_eq!(redirect_step(0, "https://example.com@10.0.0.1/"), RedirectStep::Stop);
    assert_eq!(redirect_step(10, "https://example.com/"), RedirectStep::TooMany);
    assert_eq!(redirect_step(11, "http://10.0.0.1/"), RedirectStep::TooMany);
}
