//! The client-side reporter.
//!
//! A reporter holds the collector's base URL and the identity of the error
//! channel it reports to.  Reporting one event is split into three steps:
//! resolving the target URL, building the wire request, and interpreting
//! the transport's outcome.  The network round trip itself is the embedding
//! application's work; it hands the outcome back as a plain value.

use vstd::prelude::*;
use crate::errors::{BodyOutcome, ErrorDetail};
use crate::segment::{norm_spec, normalize_segment};
use crate::urls::{http_base, join_url, parse_url, plain_rel, url_join_norm, url_parse_norm};

verus! {

/// A client-side reporter: the collector's base URL and the identity of
/// the error channel this process reports to.  The identity is set by the
/// builder methods before the reporter is registered and is read-only
/// afterwards.
#[derive(Debug, Clone)]
pub struct ErrorReporter {
    /// The collector's base URL, as the URL parser serialized it.
    pub base_url: String,
    /// The service segment; `"default/"` stands in when unset.
    pub service: Option<String>,
    /// The subservice segment, stored verbatim; `"default"` stands in when
    /// unset.
    pub subservice: Option<String>,
}

/// One request on the wire: the resolved target URL, the message carried as
/// a query parameter, and the JSON payload carried as the request body.
#[derive(Debug, Clone, PartialEq, Eq)]
pub struct ReportRequest {
    pub url: String,
    pub message: String,
    pub body: String,
}

/// What the transport made of one request: the send failed outright, or a
/// response arrived with a success or non-success status and a body.
#[derive(Debug, Clone)]
pub enum TransportOutcome {
    SendFailed(String),
    Response { success: bool, body: BodyOutcome },
}

/// The result one transport outcome is reported as: a send failure is a
/// transport error; a non-success status is a server error carrying the
/// body outcome; a success status succeeds exactly when its body reads as
/// the literal acknowledgement `OK`.
pub open spec fn outcome_result(outcome: TransportOutcome) -> Result<(), ErrorDetail> {
    match outcome {
        TransportOutcome::SendFailed(cause) => Err(ErrorDetail::TransportError(cause)),
        TransportOutcome::Response { success, body } => if !success {
            Err(ErrorDetail::ServerError(body))
        } else {
            match body {
                BodyOutcome::ReadFailed(cause) => Err(ErrorDetail::BodyReadError(cause)),
                BodyOutcome::Text(text) => if text@ == "OK"@ {
                    Ok(())
                } else {
                    Err(ErrorDetail::UnexpectedResponse(text))
                },
            }
        },
    }
}

impl ErrorReporter {
    /// The stored base URL is a serialization the URL parser itself
    /// produced.
    pub open spec fn wf(self) -> bool {
        url_parse_norm(self.base_url@) == Some(self.base_url@)
    }

    /// The effective service segment.
    pub open spec fn service_segment(self) -> Seq<char> {
        match self.service {
            Some(s) => s@,
            None => "default/"@,
        }
    }

    /// The effective subservice segment.
    pub open spec fn subservice_segment(self) -> Seq<char> {
        match self.subservice {
            Some(s) => s@,
            None => "default"@,
        }
    }

    /// The resolved target of this reporter: the base URL joined with the
    /// log path, then the service segment, then the subservice segment, as
    /// far as each join succeeds.
    pub open spec fn resolved_url(self) -> Option<Seq<char>> {
        match url_join_norm(self.base_url@, "log/"@) {
            Some(u1) => match url_join_norm(u1, self.service_segment()) {
                Some(u2) => url_join_norm(u2, self.subservice_segment()),
                None => None,
            },
            None => None,
        }
    }

    /// Build a reporter for the collector at `base_url`.  Fails exactly
    /// when `base_url` does not parse as an absolute URL; the identity
    /// starts unset.
    pub fn new(base_url: String) -> (r: Option<ErrorReporter>)
        ensures
            r is Some <==> url_parse_norm(base_url@) is Some,
            r matches Some(rep) ==> url_parse_norm(base_url@) == Some(rep.base_url@) && rep.wf()
                && rep.service is None && rep.subservice is None,
    {
        match parse_url(base_url.as_str()) {
            Some(normalized) => Some(
                ErrorReporter { base_url: normalized, service: None, subservice: None },
            ),
            None => None,
        }
    }

    /// Build a reporter from the configured base URL, as the environment
    /// hands it over (absent when unset).  Fails silently, exactly when
    /// the value is absent or does not parse as an absolute URL.
    pub fn new_env(base_url: Option<String>) -> (r: Option<ErrorReporter>)
        ensures
            base_url is None ==> r is None,
            base_url matches Some(u) ==> (r is Some <==> url_parse_norm(u@) is Some),
            base_url matches Some(u) ==> (r matches Some(rep) ==> url_parse_norm(u@) == Some(
                rep.base_url@,
            ) && rep.wf() && rep.service is None && rep.subservice is None),
    {
        match base_url {
            Some(u) => ErrorReporter::new(u),
            None => None,
        }
    }

    /// Set the service segment in place, verbatim.
    pub fn set_service(&mut self, service: String)
        ensures
            final(self).service == Some(service),
            final(self).base_url == old(self).base_url,
            final(self).subservice == old(self).subservice,
    {
        self.service = Some(service);
    }

    /// Set the subservice segment in place, verbatim.
    pub fn set_subservice(&mut self, subservice: String)
        ensures
            final(self).subservice == Some(subservice),
            final(self).base_url == old(self).base_url,
            final(self).service == old(self).service,
    {
        self.subservice = Some(subservice);
    }

    /// Replace the service segment with the normalized form of `service`,
    /// so that the segment ends in exactly one separator and a later join
    /// cannot clobber it.
    pub fn with_service(self, service: String) -> (r: ErrorReporter)
        ensures
            r.service matches Some(s) && s@ == norm_spec(service@),
            r.base_url == self.base_url,
            r.subservice == self.subservice,
    {
        let normalized = normalize_segment(service.as_str());
        ErrorReporter { base_url: self.base_url, service: Some(normalized), subservice: self.subservice }
    }

    /// Replace the subservice segment with `subservice`, verbatim: only the
    /// service side is normalized, deliberately.
    pub fn with_subservice(self, subservice: String) -> (r: ErrorReporter)
        ensures
            r.subservice == Some(subservice),
            r.base_url == self.base_url,
            r.service == self.service,
    {
        ErrorReporter { base_url: self.base_url, service: self.service, subservice: Some(subservice) }
    }

    /// Resolve the target URL for this reporter's identity.  For a
    /// well-behaved base and plain segments the result is owed and is
    /// exactly the base with `log/` and the two segments appended; with the
    /// identity unset it is the base with `log/default/default` appended.
    pub fn url(&self) -> (r: Option<String>)
        ensures
            r is Some <==> self.resolved_url() is Some,
            r matches Some(t) ==> self.resolved_url() == Some(t@),
            self.wf() && http_base(self.base_url@) && plain_rel(self.service_segment())
                && self.service_segment().last() == '/' && plain_rel(self.subservice_segment())
                ==> (r matches Some(t) && t@ == self.base_url@ + "log/"@ + self.service_segment()
                + self.subservice_segment()),
            self.wf() && http_base(self.base_url@) && self.service is None && self.subservice
                is None ==> (r matches Some(t) && t@ == self.base_url@ + "log/default/default"@),
    {
        proof {
            reveal_strlit("log/");
            reveal_strlit("default/");
            reveal_strlit("default");
            reveal_strlit("log/default/default");
            assert(plain_rel("log/"@));
            assert(plain_rel("default/"@));
            assert(plain_rel("default"@));
        }
        let ghost ok = self.wf() && http_base(self.base_url@) && plain_rel(self.service_segment())
            && self.service_segment().last() == '/' && plain_rel(self.subservice_segment());
        proof {
            if self.wf() && http_base(self.base_url@) && self.service is None && self.subservice
                is None {
                assert(ok);
            }
        }
        let u1 = match join_url(self.base_url.as_str(), "log/") {
            Some(u) => u,
            None => {
                proof {
                    if ok {
                        assert(false);
                    }
                }
                return None;
            },
        };
        proof {
            if ok {
                assert(u1@ == self.base_url@ + "log/"@);
                crate::urls::lemma_http_base_extend(self.base_url@, "log/"@);
            }
        }
        let svc: &str = match &self.service {
            Some(s) => s.as_str(),
            None => "default/",
        };
        let u2 = match join_url(u1.as_str(), svc) {
            Some(u) => u,
            None => {
                proof {
                    if ok {
                        assert(false);
                    }
                }
                return None;
            },
        };
        proof {
            if ok {
                assert(u2@ == u1@ + self.service_segment());
                crate::urls::lemma_http_base_extend(u1@, self.service_segment());
            }
        }
        let sub: &str = match &self.subservice {
            Some(s) => s.as_str(),
            None => "default",
        };
        let r = join_url(u2.as_str(), sub);
        proof {
            if ok {
                assert(r matches Some(t) && t@ == u2@ + self.subservice_segment());
                assert(r matches Some(t) ==> t@ == self.base_url@ + "log/"@
                    + self.service_segment() + self.subservice_segment());
                if self.service is None && self.subservice is None {
                    assert("log/"@ + "default/"@ + "default"@ =~= "log/default/default"@);
                    assert(r matches Some(t) ==> t@ =~= self.base_url@ + "log/default/default"@);
                }
            }
        }
        r
    }

    /// Build the wire request for one report: the resolved target URL, the
    /// message, and the already serialized JSON payload.  Fails exactly
    /// when the target URL cannot be resolved.
    pub fn report_request(&self, message: &str, data_json: &str) -> (r: Result<
        ReportRequest,
        ErrorDetail,
    >)
        ensures
            r is Ok <==> self.resolved_url() is Some,
            r matches Ok(req) ==> self.resolved_url() == Some(req.url@) && req.message@
                == message@ && req.body@ == data_json@,
            r matches Err(e) ==> e == ErrorDetail::InvalidUrl,
    {
        match self.url() {
            Some(u) => Ok(
                ReportRequest { url: u, message: message.to_owned(), body: data_json.to_owned() },
            ),
            None => Err(ErrorDetail::InvalidUrl),
        }
    }
}

/// Interpret what the transport made of one request, as `outcome_result`
/// states: exactly a success status whose body is the literal
/// acknowledgement `OK` counts as reported.
pub fn report_outcome(outcome: TransportOutcome) -> (r: Result<(), ErrorDetail>)
    ensures
        r == outcome_result(outcome),
{
    match outcome {
        TransportOutcome::SendFailed(cause) => Err(ErrorDetail::TransportError(cause)),
        TransportOutcome::Response { success, body } => {
            if !success {
                Err(ErrorDetail::ServerError(body))
            } else {
                match body {
                    BodyOutcome::ReadFailed(cause) => Err(ErrorDetail::BodyReadError(cause)),
                    BodyOutcome::Text(text) => {
                        let expected = String::from_str("OK");
                        if text == expected {
                            Ok(())
                        } else {
                            Err(ErrorDetail::UnexpectedResponse(text))
                        }
                    },
                }
            }
        },
    }
}

} // verus!
