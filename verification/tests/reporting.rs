use yenowa_errors::errors::{BodyOutcome, ErrorDetail, RegistryError};
use yenowa_errors::ingest::{build_row, ingest_reply, IngestFailure, IngestRejection};
use yenowa_errors::registry::{init, init_env, report_request, ReporterRegistry};
use yenowa_errors::reporter::{report_outcome, ErrorReporter, TransportOutcome};
use yenowa_errors::segment::normalize_segment;

#[test]
fn normalize_appends_one_separator() {
    assert_eq!(normalize_segment("svc"), "svc/");
    assert_eq!(normalize_segment("svc/"), "svc/");
}

#[test]
fn normalize_collapses_empty_fragments() {
    assert_eq!(normalize_segment("a//b"), "a/b/");
    assert_eq!(normalize_segment("/lead/"), "lead/");
    assert_eq!(normalize_segment("///"), "/");
    assert_eq!(normalize_segment(""), "/");
    assert_eq!(normalize_segment("a/b/c"), "a/b/c/");
}

#[test]
fn normalize_is_idempotent_on_examples() {
    for input in ["svc", "a//b", "/lead/", "", "x/y/", "//", "one/two//three/"] {
        let once = normalize_segment(input);
        let twice = normalize_segment(&once);
        assert_eq!(twice, once);
    }
}

#[test]
fn new_rejects_an_invalid_base_url() {
    assert!(ErrorReporter::new("not a url".to_string()).is_none());
    assert!(ErrorReporter::new(String::new()).is_none());
}

#[test]
fn new_keeps_the_parsed_base_url() {
    let reporter = ErrorReporter::new("http://collector.example/".to_string()).unwrap();
    assert_eq!(reporter.base_url, "http://collector.example/");
    assert!(reporter.service.is_none());
    assert!(reporter.subservice.is_none());
}

#[test]
fn new_normalizes_the_base_url_text() {
    // The stored base is the parser's serialization, not the raw input.
    let reporter = ErrorReporter::new("http://collector.example".to_string()).unwrap();
    assert_eq!(reporter.base_url, "http://collector.example/");
}

#[test]
fn new_env_fails_silently_without_a_usable_value() {
    assert!(ErrorReporter::new_env(None).is_none());
    assert!(ErrorReporter::new_env(Some("not a url".to_string())).is_none());
    let reporter = ErrorReporter::new_env(Some("http://collector.example/".to_string())).unwrap();
    assert_eq!(reporter.base_url, "http://collector.example/");
}

#[test]
fn url_defaults_to_default_default() {
    let reporter = ErrorReporter::new("http://collector.example/".to_string()).unwrap();
    assert_eq!(
        reporter.url().unwrap(),
        "http://collector.example/log/default/default"
    );
}

#[test]
fn url_joins_the_configured_identity() {
    let reporter = ErrorReporter::new("http://collector.example/".to_string())
        .unwrap()
        .with_service("payments".to_string())
        .with_subservice("checkout".to_string());
    assert_eq!(
        reporter.url().unwrap(),
        "http://collector.example/log/payments/checkout"
    );
}

#[test]
fn with_service_normalizes_but_subservice_stays_verbatim() {
    let reporter = ErrorReporter::new("http://collector.example/".to_string())
        .unwrap()
        .with_service("team//api/".to_string())
        .with_subservice("raw".to_string());
    assert_eq!(reporter.service.as_deref(), Some("team/api/"));
    assert_eq!(reporter.subservice.as_deref(), Some("raw"));
    assert_eq!(
        reporter.url().unwrap(),
        "http://collector.example/log/team/api/raw"
    );
}

#[test]
fn set_service_stores_verbatim_and_joins_replace_it() {
    // An unterminated segment set in place is clobbered by the next join:
    // the trailing separator is what protects a segment.
    let mut reporter = ErrorReporter::new("http://collector.example/".to_string()).unwrap();
    reporter.set_service("abc".to_string());
    assert_eq!(reporter.service.as_deref(), Some("abc"));
    assert_eq!(
        reporter.url().unwrap(),
        "http://collector.example/log/default"
    );
}

#[test]
fn report_request_carries_message_and_body() {
    let reporter = ErrorReporter::new("http://collector.example/".to_string())
        .unwrap()
        .with_service("svc".to_string())
        .with_subservice("sub".to_string());
    let request = reporter
        .report_request("something broke", "{\"k\":1}")
        .unwrap();
    assert_eq!(request.url, "http://collector.example/log/svc/sub");
    assert_eq!(request.message, "something broke");
    assert_eq!(request.body, "{\"k\":1}");
}

#[test]
fn registry_is_single_assignment() {
    let mut registry = ReporterRegistry::new();
    let first = ErrorReporter::new("http://first.example/".to_string())
        .unwrap()
        .with_service("one".to_string());
    let second = ErrorReporter::new("http://second.example/".to_string())
        .unwrap()
        .with_service("two".to_string());
    assert!(init(&mut registry, first).is_ok());
    assert_eq!(
        init(&mut registry, second),
        Err(RegistryError::AlreadyInitialized)
    );
    // The slot still holds the first reporter, so a report is addressed
    // with the first reporter's identity.
    let request = report_request(&registry, "m", "{}").unwrap();
    assert_eq!(request.url, "http://first.example/log/one/default");
}

#[test]
fn report_before_init_fails_without_a_request() {
    let registry = ReporterRegistry::new();
    assert_eq!(
        report_request(&registry, "m", "{}"),
        Err(RegistryError::NotInitialized)
    );
}

#[test]
fn init_env_without_a_base_url_fails() {
    let mut registry = ReporterRegistry::new();
    assert_eq!(
        init_env(&mut registry, None, "svc".to_string(), "sub".to_string()),
        Err(RegistryError::ReporterConstructionFailed)
    );
    assert_eq!(
        init_env(
            &mut registry,
            Some("no scheme here".to_string()),
            "svc".to_string(),
            "sub".to_string()
        ),
        Err(RegistryError::ReporterConstructionFailed)
    );
    assert_eq!(
        report_request(&registry, "m", "{}"),
        Err(RegistryError::NotInitialized)
    );
}

#[test]
fn init_env_registers_the_configured_identity() {
    let mut registry = ReporterRegistry::new();
    init_env(
        &mut registry,
        Some("http://collector.example/".to_string()),
        "svc".to_string(),
        "sub".to_string(),
    )
    .unwrap();
    let request = report_request(&registry, "m", "{}").unwrap();
    assert_eq!(request.url, "http://collector.example/log/svc/sub");
    assert_eq!(
        init_env(
            &mut registry,
            Some("http://other.example/".to_string()),
            "x".to_string(),
            "y".to_string()
        ),
        Err(RegistryError::AlreadyInitialized)
    );
}

#[test]
fn report_outcome_maps_every_transport_outcome() {
    assert_eq!(
        report_outcome(TransportOutcome::SendFailed("refused".to_string())),
        Err(ErrorDetail::TransportError("refused".to_string()))
    );
    assert_eq!(
        report_outcome(TransportOutcome::Response {
            success: false,
            body: BodyOutcome::Text("busy".to_string()),
        }),
        Err(ErrorDetail::ServerError(BodyOutcome::Text(
            "busy".to_string()
        )))
    );
    assert_eq!(
        report_outcome(TransportOutcome::Response {
            success: false,
            body: BodyOutcome::ReadFailed("cut off".to_string()),
        }),
        Err(ErrorDetail::ServerError(BodyOutcome::ReadFailed(
            "cut off".to_string()
        )))
    );
    assert_eq!(
        report_outcome(TransportOutcome::Response {
            success: true,
            body: BodyOutcome::Text("OK".to_string()),
        }),
        Ok(())
    );
    assert_eq!(
        report_outcome(TransportOutcome::Response {
            success: true,
            body: BodyOutcome::Text("ACCEPTED".to_string()),
        }),
        Err(ErrorDetail::UnexpectedResponse("ACCEPTED".to_string()))
    );
    assert_eq!(
        report_outcome(TransportOutcome::Response {
            success: true,
            body: BodyOutcome::ReadFailed("cut off".to_string()),
        }),
        Err(ErrorDetail::BodyReadError("cut off".to_string()))
    );
}

#[test]
fn build_row_records_the_event() {
    let reporter = ErrorReporter::new("http://collector.example/".to_string())
        .unwrap()
        .with_service("svc".to_string())
        .with_subservice("sub".to_string());
    let payload = "{\"answer\":42,\"notes\":[\"a\",\"b\"]}";
    let request = reporter.report_request("something broke", payload).unwrap();

    let row = build_row(
        "svc".to_string(),
        "sub".to_string(),
        Some(request.message.clone()),
        request.body.as_bytes(),
    )
    .unwrap();
    assert_eq!(row.service, "svc");
    assert_eq!(row.subservice, "sub");
    assert_eq!(row.error_message, "something broke");
    assert_eq!(row.err_id.len(), 36);
    let stored: serde_json::Value = serde_json::from_str(&row.error_data_json).unwrap();
    let sent: serde_json::Value = serde_json::from_str(payload).unwrap();
    assert_eq!(stored, sent);
}

#[test]
fn build_row_rejects_malformed_json() {
    let r = build_row(
        "svc".to_string(),
        "sub".to_string(),
        Some("m".to_string()),
        b"{not json",
    );
    assert_eq!(r.unwrap_err(), IngestRejection::MalformedJson);
}

#[test]
fn build_row_rejects_a_missing_message() {
    let r = build_row("svc".to_string(), "sub".to_string(), None, b"{\"a\":1}");
    assert_eq!(r.unwrap_err(), IngestRejection::MissingMessage);
    // Malformed JSON is checked first, even with the message also absent.
    let r = build_row("svc".to_string(), "sub".to_string(), None, b"{not json");
    assert_eq!(r.unwrap_err(), IngestRejection::MalformedJson);
}

#[test]
fn build_row_canonicalizes_the_payload() {
    let row = build_row(
        "svc".to_string(),
        "sub".to_string(),
        Some("m".to_string()),
        b"{ \"a\" : 1 }",
    )
    .unwrap();
    // The stored text is the re-emitted form, not the received bytes.
    assert_eq!(row.error_data_json, "{\"a\":1}");
}

#[test]
fn canonical_form_is_independent_of_key_order() {
    let first = build_row(
        "svc".to_string(),
        "sub".to_string(),
        Some("m".to_string()),
        b"{\"b\":1,\"a\":2}",
    )
    .unwrap();
    let second = build_row(
        "svc".to_string(),
        "sub".to_string(),
        Some("m".to_string()),
        b"{\"a\":2,\"b\":1}",
    )
    .unwrap();
    assert_eq!(first.error_data_json, second.error_data_json);
    let reparsed: serde_json::Value = serde_json::from_str(&first.error_data_json).unwrap();
    let expected: serde_json::Value = serde_json::from_str("{\"a\":2,\"b\":1}").unwrap();
    assert_eq!(reparsed, expected);
}

#[test]
fn fresh_rows_get_fresh_identifiers() {
    let a = build_row(
        "svc".to_string(),
        "sub".to_string(),
        Some("m".to_string()),
        b"null",
    )
    .unwrap();
    let b = build_row(
        "svc".to_string(),
        "sub".to_string(),
        Some("m".to_string()),
        b"null",
    )
    .unwrap();
    assert_eq!(a.err_id.len(), 36);
    assert_eq!(b.err_id.len(), 36);
    assert_ne!(a.err_id, b.err_id);
}

#[test]
fn ingest_reply_acknowledges_success_and_hides_failures() {
    let ok = ingest_reply(&Ok(()));
    assert_eq!(ok.status, 200);
    assert_eq!(ok.body, "OK");

    for failure in [
        IngestFailure::Rejected(IngestRejection::MalformedJson),
        IngestFailure::Rejected(IngestRejection::MissingMessage),
        IngestFailure::StorageFailed,
    ] {
        let reply = ingest_reply(&Err(failure));
        assert_eq!(reply.status, 500);
        assert_eq!(reply.body, "Internal Server Error");
    }
}
