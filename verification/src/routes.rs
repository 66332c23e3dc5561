//! The two API handlers' logic: the public-configuration projection, and the
//! status-proxy translation that maps what an outbound request to the
//! upstream status service came to into the downstream HTTP response.

use vstd::prelude::*;

verus! {

use crate::configuration::{AppConfig, AppPublicConfig};
use crate::text::dec_seq;
use crate::text::u16_to_dec;
use crate::{spec_is_success, is_success_status};
use vstd::string::StringExecFns;

/// The redacted configuration the public endpoint answers with: exactly the
/// three display fields of the resolved configuration, and nothing of the
/// bind address or the log level. Total: it never fails and reads nothing
/// but its argument, so its answer never depends on the upstream service.
pub fn get_config(config: &AppConfig) -> (r: AppPublicConfig)
    ensures
        r.page_title@ == config.page_title@,
        r.gatus_url@ == config.gatus_url@,
        r.refresh_interval_ms == config.refresh_interval_ms,
{
    AppPublicConfig {
        page_title: config.page_title.clone(),
        gatus_url: config.gatus_url.clone(),
        refresh_interval_ms: config.refresh_interval_ms,
    }
}

/// The one URL the proxy fetches: the upstream base with the fixed statuses
/// sub-path appended.
pub fn statuses_url(base: &str) -> (r: String)
    ensures
        r@ == base@ + "/api/v1/endpoints/statuses"@,
{
    let mut url = base.to_owned();
    url.append("/api/v1/endpoints/statuses");
    url
}

/// What one outbound request to the upstream service came to.
pub enum UpstreamOutcome {
    /// No HTTP response arrived at all: DNS failure, connection refused,
    /// timeout, or a TLS error.
    FetchFailed,
    /// An HTTP response arrived, whatever its status; `body` is its text.
    Reply { status: u16, body: String },
}

/// How a downstream response body is labelled.
#[derive(Clone, Copy, Debug, PartialEq, Eq, Structural)]
pub enum BodyKind {
    /// Sent as `application/json`.
    Json,
    /// Sent as plain text.
    Text,
}

/// A downstream HTTP response: status code, body, and the body's label.
#[derive(Clone, Debug)]
pub struct HttpReply {
    pub status: u16,
    pub body: String,
    pub kind: BodyKind,
}

/// Whether a text is one well-formed JSON document, as `serde_json`'s
/// grammar reads it.
pub uninterp spec fn json_ok(s: Seq<char>) -> bool;

/// Relies on `serde_json::from_str::<serde_json::Value>`: whether a text
/// parses as a JSON document depends on its characters alone.
#[verifier::external_body]
fn is_valid_json(s: &str) -> (r: bool)
    ensures
        r == json_ok(s@),
{
    serde_json::from_str::<serde_json::Value>(s).is_ok()
}

/// The canonical reason phrase of an HTTP status code (`Not Found` for 404);
/// `None` where the code is no HTTP status code or has no canonical phrase.
pub uninterp spec fn reason_phrase(code: u16) -> Option<Seq<char>>;

/// Relies on `http::StatusCode::{from_u16, canonical_reason}`: the canonical
/// reason phrase is a fixed table keyed by the code alone, absent for codes
/// outside 100..=999 and for codes the table does not list.
#[verifier::external_body]
fn canonical_reason_of(code: u16) -> (r: Option<String>)
    ensures
        (r is Some) == (reason_phrase(code) is Some),
        r matches Some(p) ==> reason_phrase(code) == Some(p@),
{
    match http::StatusCode::from_u16(code) {
        Ok(status) => status.canonical_reason().map(|p| p.to_string()),
        Err(_) => None,
    }
}

/// A status code as `http`'s status display writes it: the decimal code,
/// a space, then the canonical reason phrase or the fixed placeholder.
pub open spec fn status_line(code: u16) -> Seq<char> {
    dec_seq(code as nat) + " "@ + (match reason_phrase(code) {
        Some(p) => p,
        None => "<unknown status code>"@,
    })
}

/// The body sent downstream when the upstream answers with a non-success
/// status: the fixed prefix, then the upstream's status line.
pub open spec fn upstream_error_body(code: u16) -> Seq<char> {
    "Upstream error: "@ + status_line(code)
}

/// Writes the non-success body: `Upstream error: ` followed by the status
/// line of the upstream's code.
pub fn upstream_error_message(code: u16) -> (r: String)
    ensures
        r@ == upstream_error_body(code),
{
    let mut msg = "Upstream error: ".to_owned();
    let digits = u16_to_dec(code);
    msg.append(digits.as_str());
    msg.append(" ");
    match canonical_reason_of(code) {
        Some(p) => msg.append(p.as_str()),
        None => msg.append("<unknown status code>"),
    }
    msg
}

/// Translates what the one outbound request came to into the downstream
/// response, in the proxy's priority order: a transport failure yields 500
/// with the fixed fetch-failure body; a response with a non-success status
/// yields that same status (a pass-through, not a fixed code) with the
/// upstream-error body; a success response that is valid JSON yields 200
/// with that body verbatim, labelled JSON; a success response that is not
/// valid JSON yields 500 with the fixed parse-failure body. Total: every
/// outcome gets exactly one of the four answers.
pub fn get_statuses(outcome: UpstreamOutcome) -> (r: HttpReply)
    ensures
        outcome is FetchFailed ==> {
            &&& r.status == 500
            &&& r.body@ == "Failed to fetch from Gatus"@
            &&& r.kind is Text
        },
        outcome matches UpstreamOutcome::Reply { status, body } ==> {
            &&& !spec_is_success(status) ==> {
                &&& r.status == status
                &&& r.body@ == upstream_error_body(status)
                &&& r.kind is Text
            }
            &&& (spec_is_success(status) && json_ok(body@)) ==> {
                &&& r.status == 200
                &&& r.body@ == body@
                &&& r.kind is Json
            }
            &&& (spec_is_success(status) && !json_ok(body@)) ==> {
                &&& r.status == 500
                &&& r.body@ == "Failed to parse JSON"@
                &&& r.kind is Text
            }
        },
{
    match outcome {
        UpstreamOutcome::FetchFailed => HttpReply {
            status: 500,
            body: "Failed to fetch from Gatus".to_owned(),
            kind: BodyKind::Text,
        },
        UpstreamOutcome::Reply { status, body } => {
            if is_success_status(status) {
                if is_valid_json(body.as_str()) {
                    HttpReply { status: 200, body, kind: BodyKind::Json }
                } else {
                    HttpReply {
                        status: 500,
                        body: "Failed to parse JSON".to_owned(),
                        kind: BodyKind::Text,
                    }
                }
            } else {
                HttpReply {
                    status,
                    body: upstream_error_message(status),
                    kind: BodyKind::Text,
                }
            }
        },
    }
}

} // verus!
