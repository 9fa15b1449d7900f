//! A minimal error-reporting pipeline: a client-side reporter that addresses
//! an error channel by a `service/subservice` identity and builds the wire
//! request for one reported event, a process-wide single-assignment registry
//! holding the reporter, and the collector-side ingest step that validates,
//! normalizes and records one received event as a persisted row.

pub mod errors;
pub mod ingest;
pub mod payload;
pub mod registry;
pub mod reporter;
pub mod segment;
pub mod urls;
