//! The process-wide reporter registry, as an explicit value.
//!
//! The registry is a single-assignment slot: absent at start, set exactly
//! once, read for the rest of the process lifetime, never overwritten.
//! The embedding application owns one registry for the whole process (for
//! example behind a write-once concurrent cell); this module states and
//! proves the slot's single-assignment discipline itself.

use vstd::prelude::*;
use crate::errors::{ErrorDetail, RegistryError};
use crate::reporter::{ErrorReporter, ReportRequest};
use crate::segment::norm_spec;
use crate::urls::url_parse_norm;

verus! {

/// The single-assignment slot holding at most one registered reporter.
#[derive(Debug, Clone)]
pub struct ReporterRegistry {
    pub slot: Option<ErrorReporter>,
}

/// The slot after one initialization attempt with `reporter`: an empty slot
/// takes the reporter; a filled slot is never overwritten.
pub open spec fn slot_after_init(
    slot: Option<ErrorReporter>,
    reporter: ErrorReporter,
) -> Option<ErrorReporter> {
    if slot is None {
        Some(reporter)
    } else {
        slot
    }
}

/// The result of one initialization attempt on a slot: only the attempt
/// that finds the slot empty succeeds.
pub open spec fn init_result(slot: Option<ErrorReporter>) -> Result<(), RegistryError> {
    if slot is None {
        Ok(())
    } else {
        Err(RegistryError::AlreadyInitialized)
    }
}

impl ReporterRegistry {
    /// An empty registry: nothing has been registered yet.
    pub fn new() -> (r: ReporterRegistry)
        ensures
            r.slot is None,
    {
        ReporterRegistry { slot: None }
    }
}

/// Register `reporter` as the process reporter.  Succeeds exactly when the
/// slot was still empty; a filled slot stays untouched and the attempt
/// fails with `AlreadyInitialized`.
pub fn init(registry: &mut ReporterRegistry, reporter: ErrorReporter) -> (r: Result<
    (),
    RegistryError,
>)
    ensures
        final(registry).slot == slot_after_init(old(registry).slot, reporter),
        r == init_result(old(registry).slot),
{
    match registry.slot {
        Some(_) => Err(RegistryError::AlreadyInitialized),
        None => {
            registry.slot = Some(reporter);
            Ok(())
        },
    }
}

/// Law: the registry slot is single-assignment.  Of two initialization
/// attempts on an empty registry, the first succeeds and the second is
/// refused with `AlreadyInitialized`; the registry afterwards holds the
/// first reporter, so a later report is addressed with the first
/// reporter's identity.
pub proof fn lemma_single_assignment(first: ErrorReporter, second: ErrorReporter)
    ensures
        init_result(Option::<ErrorReporter>::None) == Result::<(), RegistryError>::Ok(()),
        slot_after_init(Option::<ErrorReporter>::None, first) == Some(first),
        init_result(slot_after_init(Option::<ErrorReporter>::None, first)) == Result::<
            (),
            RegistryError,
        >::Err(RegistryError::AlreadyInitialized),
        slot_after_init(slot_after_init(Option::<ErrorReporter>::None, first), second) == Some(
            first,
        ),
{
}

/// Build a reporter from the configured base URL (as the environment
/// handed it over, absent when unset), give it the `service/subservice`
/// identity, and register it.  Fails with `ReporterConstructionFailed`
/// when the base URL is absent or does not parse; a filled slot stays
/// untouched and fails with `AlreadyInitialized`.
pub fn init_env(
    registry: &mut ReporterRegistry,
    base_url: Option<String>,
    service: String,
    subservice: String,
) -> (r: Result<(), RegistryError>)
    ensures
        base_url is None ==> r == Result::<(), RegistryError>::Err(
            RegistryError::ReporterConstructionFailed,
        ) && *final(registry) == *old(registry),
        base_url matches Some(u) && url_parse_norm(u@) is None ==> r == Result::<
            (),
            RegistryError,
        >::Err(RegistryError::ReporterConstructionFailed) && *final(registry) == *old(registry),
        base_url matches Some(u) && url_parse_norm(u@) is Some ==> r == init_result(
            old(registry).slot,
        ),
        base_url matches Some(u) && url_parse_norm(u@) is Some && old(registry).slot is Some
            ==> *final(registry) == *old(registry),
        base_url matches Some(u) && url_parse_norm(u@) is Some && old(registry).slot is None ==> (
        final(registry).slot matches Some(w) && ((base_url matches Some(u2) && url_parse_norm(u2@)
            == Some(w.base_url@)) && w.wf() && (w.service matches Some(sv) && sv@ == norm_spec(
            service@,
        )) && w.subservice == Some(subservice))),
{
    let url_text = match base_url {
        Some(u) => u,
        None => {
            return Err(RegistryError::ReporterConstructionFailed);
        },
    };
    let reporter = match ErrorReporter::new(url_text) {
        Some(rep) => rep,
        None => {
            return Err(RegistryError::ReporterConstructionFailed);
        },
    };
    let reporter = reporter.with_service(service).with_subservice(subservice);
    init(registry, reporter)
}

/// Build the wire request for one report through the registered reporter.
/// Fails with `NotInitialized` exactly when no reporter has been
/// registered — nothing is resolved and no request exists then — and wraps
/// the reporter's own failure otherwise.
pub fn report_request(registry: &ReporterRegistry, message: &str, data_json: &str) -> (r: Result<
    ReportRequest,
    RegistryError,
>)
    ensures
        registry.slot is None <==> r == Result::<ReportRequest, RegistryError>::Err(
            RegistryError::NotInitialized,
        ),
        registry.slot matches Some(rep) ==> (r is Ok <==> rep.resolved_url() is Some),
        registry.slot matches Some(rep) ==> (r matches Ok(req) ==> rep.resolved_url() == Some(
            req.url@,
        ) && req.message@ == message@ && req.body@ == data_json@),
        registry.slot matches Some(rep) && rep.resolved_url() is None ==> r == Result::<
            ReportRequest,
            RegistryError,
        >::Err(RegistryError::Reporting(ErrorDetail::InvalidUrl)),
{
    match &registry.slot {
        None => Err(RegistryError::NotInitialized),
        Some(rep) => match rep.report_request(message, data_json) {
            Ok(req) => Ok(req),
            Err(e) => Err(RegistryError::Reporting(e)),
        },
    }
}

} // verus!
