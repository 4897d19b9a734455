//! Classification of raw HTTP outcomes.
//!
//! One round trip against the server ends in one of two ways: a response
//! arrived (with a status, a declared content type, and a body), or no
//! response arrived at all. This module turns that raw outcome into either
//! the body bytes of a successful response, for the caller's decoder, or an
//! [`ElasticsearchError`]. The message of an error response is rendered from
//! its body according to the declared content type: JSON and CBOR bodies are
//! decoded and re-rendered as pretty-printed JSON, anything else is read as
//! plain text.

use vstd::prelude::*;

use crate::error::ElasticsearchError;
use crate::text::str_eq;

verus! {

/// The pretty-printed JSON text of a byte body, when the bytes parse as JSON.
pub uninterp spec fn json_pretty_of(bytes: Seq<u8>) -> Option<Seq<char>>;

/// The pretty-printed JSON text of a byte body, when the bytes parse as CBOR
/// whose structure JSON can carry.
pub uninterp spec fn cbor_pretty_of(bytes: Seq<u8>) -> Option<Seq<char>>;

/// The text of a byte body, when the bytes are well-formed UTF-8.
pub uninterp spec fn utf8_chars_of(bytes: Seq<u8>) -> Option<Seq<char>>;

/// Relies on serde_json::from_slice and serde_json::to_string_pretty: parses
/// the bytes as JSON and renders the parsed value as pretty-printed text, a
/// function of the bytes alone.
#[verifier::external_body]
fn json_pretty(bytes: &[u8]) -> (r: Option<String>)
    ensures
        r is Some <==> json_pretty_of(bytes@) is Some,
        r matches Some(s) ==> Some(s@) == json_pretty_of(bytes@),
{
    match serde_json::from_slice::<serde_json::Value>(bytes) {
        Ok(v) => serde_json::to_string_pretty(&v).ok(),
        Err(_) => None,
    }
}

/// Relies on serde_cbor::from_slice and serde_json::to_string_pretty: parses
/// the bytes as CBOR into a JSON value and renders it as pretty-printed
/// text, a function of the bytes alone.
#[verifier::external_body]
fn cbor_pretty(bytes: &[u8]) -> (r: Option<String>)
    ensures
        r is Some <==> cbor_pretty_of(bytes@) is Some,
        r matches Some(s) ==> Some(s@) == cbor_pretty_of(bytes@),
{
    match serde_cbor::from_slice::<serde_json::Value>(bytes) {
        Ok(v) => serde_json::to_string_pretty(&v).ok(),
        Err(_) => None,
    }
}

/// Relies on String::from_utf8: decodes the bytes as UTF-8 text, a function
/// of the bytes alone, and refuses ill-formed input.
#[verifier::external_body]
fn utf8_string(bytes: Vec<u8>) -> (r: Option<String>)
    ensures
        r is Some <==> utf8_chars_of(bytes@) is Some,
        r matches Some(s) ==> Some(s@) == utf8_chars_of(bytes@),
{
    String::from_utf8(bytes).ok()
}

/// The raw outcome of one HTTP round trip, before classification.
pub enum HttpOutcome {
    /// The server answered: a status line, the declared content type of the
    /// body, and the body bytes.
    Received { status: u16, content_type: String, body: Vec<u8> },
    /// No response arrived (DNS failure, connection refusal, timeout), with
    /// the underlying cause's description.
    NotReceived { cause: String },
}

/// Whether a status code reports success.
pub open spec fn is_success_status(status: u16) -> bool {
    200 <= status < 300
}

/// The text a body is read as when it carries no decodable structure:
/// its UTF-8 text, or a fixed placeholder when it is not text.
pub open spec fn fallback_text(body: Seq<u8>) -> Seq<char> {
    match utf8_chars_of(body) {
        Some(t) => t,
        None => "no response data"@,
    }
}

/// The message rendered for an error response: JSON and CBOR bodies are
/// decoded and re-rendered as pretty-printed JSON text, anything else (or a
/// body its declared decoder rejects) is read as plain text.
pub open spec fn remote_error_message(content_type: Seq<char>, body: Seq<u8>) -> Seq<char> {
    if content_type == "application/json"@ {
        match json_pretty_of(body) {
            Some(t) => t,
            None => fallback_text(body),
        }
    } else if content_type == "application/cbor"@ {
        match cbor_pretty_of(body) {
            Some(t) => t,
            None => fallback_text(body),
        }
    } else {
        fallback_text(body)
    }
}

/// The body read as plain text, or the fixed placeholder.
fn fallback_body_text(body: Vec<u8>) -> (r: String)
    ensures
        r@ == fallback_text(body@),
{
    match utf8_string(body) {
        Some(s) => s,
        None => String::from_str("no response data"),
    }
}

/// The message for an error response, by its declared content type.
fn render_error_body(content_type: &str, body: Vec<u8>) -> (r: String)
    ensures
        r@ == remote_error_message(content_type@, body@),
{
    if str_eq(content_type, "application/json") {
        match json_pretty(body.as_slice()) {
            Some(s) => s,
            None => fallback_body_text(body),
        }
    } else if str_eq(content_type, "application/cbor") {
        match cbor_pretty(body.as_slice()) {
            Some(s) => s,
            None => fallback_body_text(body),
        }
    } else {
        fallback_body_text(body)
    }
}

/// Classifies a received response: a success hands its body bytes to the
/// caller's decoder, anything else becomes an error carrying the status code
/// and a message rendered from the body.
pub fn classify_response(status: u16, content_type: &str, body: Vec<u8>) -> (r: Result<
    Vec<u8>,
    ElasticsearchError,
>)
    ensures
        is_success_status(status) ==> (r matches Ok(b) && b == body),
        !is_success_status(status) ==> (r matches Err(e) && e@ == (
            Some(status),
            remote_error_message(content_type@, body@),
        )),
{
    if 200 <= status && status < 300 {
        Ok(body)
    } else {
        Err(ElasticsearchError::remote(status, render_error_body(content_type, body)))
    }
}

/// Classifies the raw outcome of one round trip. A response that never
/// arrived carries no status code; a received response is classified by its
/// status.
pub fn handle_response(outcome: HttpOutcome) -> (r: Result<Vec<u8>, ElasticsearchError>)
    ensures
        outcome matches HttpOutcome::NotReceived { cause } ==> (r matches Err(e) && e@ == (
            None::<u16>,
            cause@,
        )),
        outcome matches HttpOutcome::Received { status, content_type, body } ==> {
            &&& is_success_status(status) ==> (r matches Ok(b) && b == body)
            &&& !is_success_status(status) ==> (r matches Err(e) && e@ == (
                Some(status),
                remote_error_message(content_type@, body@),
            ))
        },
{
    match outcome {
        HttpOutcome::Received { status, content_type, body } => {
            classify_response(status, content_type.as_str(), body)
        },
        HttpOutcome::NotReceived { cause } => Err(ElasticsearchError::transport(cause)),
    }
}

/// The error for a successful response whose body the caller's decoder
/// rejected: a malformed success body is a contract violation worth
/// surfacing, never silently replaced by a default. It keeps the received
/// status code, which a transport failure never has.
pub fn decode_failure(status: u16, detail: String) -> (r: ElasticsearchError)
    requires
        is_success_status(status),
    ensures
        r@ == (Some(status), detail@),
{
    ElasticsearchError::remote(status, detail)
}

} // verus!
