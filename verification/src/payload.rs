//! JSON payload normalization.
//!
//! The collector does not store a received payload byte for byte: it parses
//! the bytes as one JSON document and writes the parsed value back out, so
//! that every persisted payload is valid JSON in one canonical text form,
//! and malformed payloads are rejected.  Parsing and re-emission are
//! `serde_json`'s work and stand behind one trusted wrapper.

use vstd::prelude::*;

verus! {

/// Whether `serde_json` accepts `bytes` as one well-formed JSON document.
pub uninterp spec fn json_wf(bytes: Seq<u8>) -> bool;

/// The canonical text `serde_json` re-emits for the document parsed from
/// `bytes` (meaningful only when `json_wf(bytes)` holds).
pub uninterp spec fn json_canon(bytes: Seq<u8>) -> Seq<char>;

/// Relies on `serde_json::from_slice` and `serde_json::to_string`: the
/// bytes are parsed as one JSON document, and on success the parsed value
/// is written back out.  Acceptance and the re-emitted text both depend on
/// the input bytes alone, so each carries a name here; writing a parsed
/// `serde_json::Value` back out does not fail.
#[verifier::external_body]
pub(crate) fn canonicalize_json(bytes: &[u8]) -> (r: Option<String>)
    ensures
        r is Some <==> json_wf(bytes@),
        r matches Some(t) ==> t@ == json_canon(bytes@),
{
    let value: serde_json::Value = match serde_json::from_slice(bytes) {
        Ok(v) => v,
        Err(_) => return None,
    };
    match serde_json::to_string(&value) {
        Ok(t) => Some(t),
        Err(_) => None,
    }
}

} // verus!
