//! The collector-side ingest step.
//!
//! One received event is validated and normalized into a persisted row:
//! the body bytes must parse as one JSON document (re-emitted in canonical
//! text form), the message must be present, and the row gets a fresh
//! identifier and the current timestamp.  Writing the row into the store
//! is the embedding application's work; every failure, the client's fault
//! or the store's, is answered with the same opaque server-error reply.

use vstd::prelude::*;
use crate::payload::{canonicalize_json, json_canon, json_wf};

verus! {

/// One persisted error record: a fresh identifier, the channel identity
/// taken from the request path, the message, the payload as canonical JSON
/// text, and the receipt time as whole seconds since the Unix epoch.
#[derive(Debug, Clone)]
pub struct ErrorRow {
    pub err_id: String,
    pub service: String,
    pub subservice: String,
    pub error_message: String,
    pub error_data_json: String,
    pub timestamp: i64,
}

/// Why a received event was rejected before anything was persisted.
#[derive(Debug, Clone, PartialEq, Eq)]
pub enum IngestRejection {
    /// The body bytes are not one well-formed JSON document.
    MalformedJson,
    /// No message query parameter came with the request.
    MissingMessage,
}

/// Why one request did not end in a persisted row: it was rejected up
/// front, or the store refused the write.
#[derive(Debug, Clone, PartialEq, Eq)]
pub enum IngestFailure {
    Rejected(IngestRejection),
    StorageFailed,
}

/// The reply sent for one request: a status code and a body text.
#[derive(Debug, Clone)]
pub struct HttpReply {
    pub status: u16,
    pub body: String,
}

/// Relies on `uuid::Uuid::new_v4` and the hyphenated `Uuid` format: a
/// freshly generated random identifier, written in the 36-character
/// hyphenated text form.  Nothing relates two calls; only the length is
/// promised.
#[verifier::external_body]
fn fresh_err_id() -> (r: String)
    ensures
        r@.len() == 36,
{
    uuid::Uuid::new_v4().hyphenated().to_string()
}

/// Relies on `time::OffsetDateTime::now_utc` and `unix_timestamp`: the
/// current moment, as whole seconds since the Unix epoch.  Nothing is
/// promised of the clock's reading.
#[verifier::external_body]
fn now_unix_seconds() -> (r: i64) {
    time::OffsetDateTime::now_utc().unix_timestamp()
}

/// Validate one received event and build the row to persist: the body
/// bytes must be one well-formed JSON document, which is re-emitted in
/// canonical text form, and the message must be present — checked in that
/// order.  An accepted event gets a fresh identifier and the current
/// timestamp; the channel identity and message are recorded verbatim.
pub fn build_row(
    service: String,
    subservice: String,
    message: Option<String>,
    body: &[u8],
) -> (r: Result<ErrorRow, IngestRejection>)
    ensures
        r is Ok <==> json_wf(body@) && message is Some,
        r matches Ok(row) ==> (message matches Some(m) && row.error_message == m),
        r matches Ok(row) ==> row.service == service && row.subservice == subservice,
        r matches Ok(row) ==> row.error_data_json@ == json_canon(body@),
        r matches Ok(row) ==> row.err_id@.len() == 36,
        r == Result::<ErrorRow, IngestRejection>::Err(IngestRejection::MalformedJson) <==> !json_wf(
            body@,
        ),
        r == Result::<ErrorRow, IngestRejection>::Err(IngestRejection::MissingMessage) <==> (
        json_wf(body@) && message is None),
{
    let canonical = match canonicalize_json(body) {
        Some(text) => text,
        None => {
            return Err(IngestRejection::MalformedJson);
        },
    };
    let message_text = match message {
        Some(m) => m,
        None => {
            return Err(IngestRejection::MissingMessage);
        },
    };
    Ok(
        ErrorRow {
            err_id: fresh_err_id(),
            service,
            subservice,
            error_message: message_text,
            error_data_json: canonical,
            timestamp: now_unix_seconds(),
        },
    )
}

/// The one place every ingest outcome is mapped to a wire reply: a
/// persisted event is acknowledged with status 200 and the literal body
/// `OK`; every failure, whatever its cause, is answered with status 500
/// and the opaque body `Internal Server Error`, so no internal detail
/// reaches the caller.
pub fn ingest_reply(outcome: &Result<(), IngestFailure>) -> (r: HttpReply)
    ensures
        outcome is Ok ==> r.status == 200 && r.body@ == "OK"@,
        outcome is Err ==> r.status == 500 && r.body@ == "Internal Server Error"@,
{
    match outcome {
        Ok(_) => HttpReply { status: 200, body: String::from_str("OK") },
        Err(_) => HttpReply { status: 500, body: String::from_str("Internal Server Error") },
    }
}

} // verus!
