//! The closed set of failures the library reports.
//!
//! Reporting failures are always returned as values; no operation of the
//! library panics or aborts the embedding process.

use vstd::prelude::*;

verus! {

/// What came of reading a response body: the text itself, or the reason it
/// could not be read.
#[derive(Debug, Clone, PartialEq, Eq)]
pub enum BodyOutcome {
    Text(String),
    ReadFailed(String),
}

/// One failure of a client-side report attempt.
#[derive(Debug, Clone, PartialEq, Eq)]
pub enum ErrorDetail {
    /// The reporter's identity could not be composed into a target URL.
    InvalidUrl,
    /// The payload could not be serialized to JSON text; carries the
    /// serializer's description.
    SerializationError(String),
    /// The request could not be sent at all; carries the transport's
    /// description.
    TransportError(String),
    /// The collector answered with a non-success status; carries the
    /// response body, or the reason it could not be read.
    ServerError(BodyOutcome),
    /// The collector answered success, but not with the expected body;
    /// carries the body text.
    UnexpectedResponse(String),
    /// The collector answered success, but its body could not be read;
    /// carries the reason.
    BodyReadError(String),
}

/// One failure of the global-registry operations.
#[derive(Debug, Clone, PartialEq, Eq)]
pub enum RegistryError {
    /// A reporter was registered before; the slot is single-assignment.
    AlreadyInitialized,
    /// No reporter has been registered yet.
    NotInitialized,
    /// No reporter could be built from the configured base URL.
    ReporterConstructionFailed,
    /// The registered reporter's report attempt failed.
    Reporting(ErrorDetail),
}

} // verus!
