//! The fetch relay and the request orchestration around it: what to do with
//! a raw request, and which envelope to answer with once the fetch is done.
use vstd::prelude::*;
use vstd::string::*;

use crate::egress::{egress_verdict, parsed_url_of, reason_text, validate, ApprovedTarget, ValidationError, Rejection};

verus! {

#[verifier::external_type_specification]
#[verifier::external_body]
pub struct ExJsonValue(serde_json::Value);

#[verifier::external_type_specification]
#[verifier::external_body]
pub struct ExJsonError(serde_json::Error);

/// Whether `serde_json::from_slice` accepts `b` as one JSON value.
pub uninterp spec fn json_accepts(b: Seq<u8>) -> bool;

/// Relies on `serde_json::from_slice` to parse a response body as a generic
/// JSON value; it succeeds exactly on the bytes it accepts.
#[verifier::external_body]
fn parse_json(body: &[u8]) -> (r: Result<serde_json::Value, serde_json::Error>)
    ensures
        r is Ok <==> json_accepts(body@),
{
    serde_json::from_slice(body)
}

/// Why a fetch of an approved target did not yield metadata.
#[derive(Debug, Clone, PartialEq, Eq)]
pub enum FetchFailure {
    /// The request could not be sent or no response came back.
    FetchFailed,
    /// The response body is not valid JSON.
    ParseFailed,
}

/// The text that a fetch failure is reported with.
pub open spec fn failure_text(f: FetchFailure) -> Seq<char> {
    match f {
        FetchFailure::FetchFailed => "Failed to fetch from URL"@,
        FetchFailure::ParseFailed => "Failed to parse metadata"@,
    }
}

impl FetchFailure {
    /// The text that this failure is reported with.
    pub fn message(&self) -> (r: String)
        ensures
            r@ == failure_text(*self),
    {
        match self {
            FetchFailure::FetchFailed => String::from_str("Failed to fetch from URL"),
            FetchFailure::ParseFailed => String::from_str("Failed to parse metadata"),
        }
    }
}

/// What the transport brought back for one GET request.
pub enum Received {
    /// The request failed: connection, TLS, DNS or timeout.
    NoResponse,
    /// A response came, but its body could not be read.
    UnreadableBody,
    /// A response came with this body.
    Body(Vec<u8>),
}

/// The result of a fetch: the body as a JSON value, or why there is none.
pub enum FetchOutcome {
    Success(serde_json::Value),
    Failure(FetchFailure),
}

/// Turns the result of parsing a response body into a fetch outcome: the
/// parsed value is the metadata; a body that is not JSON is a parse failure.
pub fn settle_parsed(parsed: Result<serde_json::Value, serde_json::Error>) -> (r: FetchOutcome)
    ensures
        match parsed {
            Ok(v) => r == FetchOutcome::Success(v),
            Err(_) => r matches FetchOutcome::Failure(FetchFailure::ParseFailed),
        },
{
    match parsed {
        Ok(v) => FetchOutcome::Success(v),
        Err(_) => FetchOutcome::Failure(FetchFailure::ParseFailed),
    }
}

/// Turns what the transport brought back into a fetch outcome: no response
/// is a fetch failure; a body that is missing or not JSON is a parse failure.
pub fn settle(received: Received) -> (r: FetchOutcome)
    ensures
        match received {
            Received::NoResponse => r matches FetchOutcome::Failure(FetchFailure::FetchFailed),
            Received::UnreadableBody => r matches FetchOutcome::Failure(FetchFailure::ParseFailed),
            Received::Body(b) => if json_accepts(b@) {
                r is Success
            } else {
                r matches FetchOutcome::Failure(FetchFailure::ParseFailed)
            },
        },
{
    match received {
        Received::NoResponse => FetchOutcome::Failure(FetchFailure::FetchFailed),
        Received::UnreadableBody => FetchOutcome::Failure(FetchFailure::ParseFailed),
        Received::Body(b) => settle_parsed(parse_json(b.as_slice())),
    }
}

/// The reply to the caller: the metadata, or an error message.
pub enum Envelope {
    /// `{"status": "success", "metadata": ...}`
    Success(serde_json::Value),
    /// `{"error": ...}`
    Error(String),
}

/// The error message for a rejection by the egress check.
pub open spec fn rejection_text(e: Rejection) -> Seq<char> {
    "URL validation failed: "@ + reason_text(e)
}

/// The envelope that reports a rejection by the egress check.
pub fn rejection_envelope(e: &ValidationError) -> (r: Envelope)
    ensures
        r matches Envelope::Error(m) && m@ == rejection_text(e@),
{
    let m = String::from_str("URL validation failed: ").concat(e.message().as_str());
    Envelope::Error(m)
}

/// The envelope that reports a fetch outcome: the metadata itself on
/// success, the failure's text otherwise.
pub fn outcome_envelope(o: FetchOutcome) -> (r: Envelope)
    ensures
        match o {
            FetchOutcome::Success(v) => r == Envelope::Success(v),
            FetchOutcome::Failure(f) => r matches Envelope::Error(m) && m@ == failure_text(f),
        },
{
    match o {
        FetchOutcome::Success(v) => Envelope::Success(v),
        FetchOutcome::Failure(f) => Envelope::Error(f.message()),
    }
}

/// What to do next with a request.
pub enum Step {
    /// Answer at once with this envelope.
    Respond(Envelope),
    /// Fetch this approved target, then pass what came back to [`finish`].
    Fetch(ApprovedTarget),
}

/// The first step for a raw request URL: fetch it if the egress check approves it,
/// else answer with the rejection.
pub fn begin(raw: &str) -> (r: Step)
    ensures
        match egress_verdict(parsed_url_of(raw@)) {
            Ok(u) => r matches Step::Fetch(t) && t@ == u,
            Err(e) => r matches Step::Respond(Envelope::Error(m)) && m@ == rejection_text(e),
        },
{
    match validate(raw) {
        Ok(target) => Step::Fetch(target),
        Err(e) => Step::Respond(rejection_envelope(&e)),
    }
}

/// The last step: the envelope for what the fetch of an approved target
/// brought back.
pub fn finish(received: Received) -> (r: Envelope)
    ensures
        match received {
            Received::NoResponse => r matches Envelope::Error(m) && m@ == failure_text(
                FetchFailure::FetchFailed,
            ),
            Received::UnreadableBody => r matches Envelope::Error(m) && m@ == failure_text(
                FetchFailure::ParseFailed,
            ),
            Received::Body(b) => if json_accepts(b@) {
                r is Success
            } else {
                r matches Envelope::Error(m) && m@ == failure_text(FetchFailure::ParseFailed)
            },
        },
{
    outcome_envelope(settle(received))
}

/// The most redirects that one fetch follows.
pub const MAX_REDIRECTS: usize = 10;

/// What to do with a redirect that a fetch of an approved target meets.
#[derive(Debug, Clone, Copy, PartialEq, Eq)]
pub enum RedirectStep {
    /// Go on to the redirect target.
    Follow,
    /// Do not follow; the redirect response is what the fetch brings back.
    Stop,
    /// Give up the fetch: too many redirects in a row.
    TooMany,
}

/// Decides on a redirect to `target` after `hops` redirects were followed:
/// follow it only where it passes the same egress check as the request did,
/// and never more than [`MAX_REDIRECTS`] times.
pub fn redirect_step(hops: usize, target: &str) -> (r: RedirectStep)
    ensures
        hops >= MAX_REDIRECTS ==> r == RedirectStep::TooMany,
        hops < MAX_REDIRECTS ==> (r == RedirectStep::Follow <==> egress_verdict(
            parsed_url_of(target@),
        ) is Ok),
        hops < MAX_REDIRECTS ==> (r == RedirectStep::Stop <==> egress_verdict(
            parsed_url_of(target@),
        ) is Err),
{
    if hops >= MAX_REDIRECTS {
        RedirectStep::TooMany
    } else {
        match validate(target) {
            Ok(_) => RedirectStep::Follow,
            Err(_) => RedirectStep::Stop,
        }
    }
}

} // verus!
