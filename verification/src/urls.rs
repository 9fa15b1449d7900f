//! URL composition for the reporter.
//!
//! The reporter addresses the collector by joining relative path segments
//! onto a base URL.  Parsing and reference resolution are the `url` crate's
//! work and stand behind trusted wrappers; what this module proves itself is
//! that for a well-behaved base (an `http` or `https` URL whose text ends in
//! a separator) and plain path segments, resolution is exactly appending.

use vstd::prelude::*;
use crate::segment::no_double_sep;

verus! {

/// What `url::Url::parse` makes of `s`: `None` when `s` is not a valid
/// absolute URL, otherwise the parsed URL written back out.
pub uninterp spec fn url_parse_norm(s: Seq<char>) -> Option<Seq<char>>;

/// What resolving the reference `rel` against the base URL `base` yields:
/// `None` when `base` does not parse or the resolution fails, otherwise the
/// resolved URL written back out.
pub uninterp spec fn url_join_norm(base: Seq<char>, rel: Seq<char>) -> Option<Seq<char>>;

/// A character that needs no escaping in a URL path and can start no
/// scheme, query, fragment or dot segment.
pub open spec fn plain_char(c: char) -> bool {
    ('a' <= c && c <= 'z') || ('A' <= c && c <= 'Z') || ('0' <= c && c <= '9') || c == '-' || c
        == '_'
}

/// A plain relative path reference: non-empty, made of plain characters and
/// single separators, and not starting with a separator.
pub open spec fn plain_rel(s: Seq<char>) -> bool {
    s.len() > 0 && s.first() != '/' && no_double_sep(s) && (forall|i: int|
        0 <= i < s.len() ==> plain_char(#[trigger] s[i]) || s[i] == '/')
}

/// `b` starts with the scheme-and-authority opening of an `http` URL.
pub open spec fn http_prefix(b: Seq<char>) -> bool {
    b.len() >= 7 && b[0] == 'h' && b[1] == 't' && b[2] == 't' && b[3] == 'p' && b[4] == ':' && b[5]
        == '/' && b[6] == '/'
}

/// `b` starts with the scheme-and-authority opening of an `https` URL.
pub open spec fn https_prefix(b: Seq<char>) -> bool {
    b.len() >= 8 && b[0] == 'h' && b[1] == 't' && b[2] == 't' && b[3] == 'p' && b[4] == 's' && b[5]
        == ':' && b[6] == '/' && b[7] == '/'
}

/// A base URL against which resolving a plain relative reference is exactly
/// appending: an `http` or `https` URL whose text carries no query and no
/// fragment and ends in a path separator.
pub open spec fn http_base(b: Seq<char>) -> bool {
    (http_prefix(b) || https_prefix(b)) && b.last() == '/' && (forall|i: int|
        0 <= i < b.len() ==> (#[trigger] b[i]) != '?' && b[i] != '#')
}

/// Appending one plain segment that ends in a separator keeps a base
/// append-friendly for the next segment.
pub proof fn lemma_http_base_extend(b: Seq<char>, rel: Seq<char>)
    requires
        http_base(b),
        plain_rel(rel),
        rel.last() == '/',
    ensures
        http_base(b + rel),
{
    let t = b + rel;
    assert(t.last() == rel.last());
    assert forall|i: int| 0 <= i < t.len() implies (#[trigger] t[i]) != '?' && t[i] != '#' by {
        if i < b.len() {
            assert(t[i] == b[i]);
        } else {
            assert(t[i] == rel[i - b.len()]);
            assert(plain_char(rel[i - b.len()]) || rel[i - b.len()] == '/');
        }
    }
    assert(b.len() >= 7);
    assert forall|i: int| 0 <= i < 8 && i < b.len() implies #[trigger] t[i] == b[i] by {}
}

/// Relies on `url::Url::parse` and the `url` crate's serialization: a string
/// either fails to parse as an absolute URL or parses to a URL whose
/// serialization `String::from` returns, and a serialization re-parses to
/// itself.
#[verifier::external_body]
pub(crate) fn parse_url(s: &str) -> (r: Option<String>)
    ensures
        r is Some <==> url_parse_norm(s@) is Some,
        r matches Some(t) ==> url_parse_norm(s@) == Some(t@) && url_parse_norm(t@) == Some(t@),
{
    match url::Url::parse(s) {
        Ok(u) => Some(String::from(u)),
        Err(_) => None,
    }
}

/// Relies on `url::Url::parse` and `url::Url::join`: the reference `rel` is
/// resolved against the base, by RFC 3986 reference resolution.  A trailing
/// separator on the base is significant: the last path segment is dropped
/// without one, so for a base that parses to itself, carries no query or
/// fragment, ends in a separator and is hierarchical (`http` or `https`),
/// resolving a plain relative reference appends it to the base text, and the
/// result again parses to itself.
#[verifier::external_body]
pub(crate) fn join_url(base: &str, rel: &str) -> (r: Option<String>)
    ensures
        r is Some <==> url_join_norm(base@, rel@) is Some,
        r matches Some(t) ==> url_join_norm(base@, rel@) == Some(t@) && url_parse_norm(t@) == Some(t@),
        r is None ==> !(url_parse_norm(base@) == Some(base@) && http_base(base@) && plain_rel(rel@)),
        r matches Some(t) ==> (url_parse_norm(base@) == Some(base@) && http_base(base@) && plain_rel(rel@) ==> t@ == base@ + rel@),
{
    let b = match url::Url::parse(base) {
        Ok(u) => u,
        Err(_) => return None,
    };
    match b.join(rel) {
        Ok(u) => Some(String::from(u)),
        Err(_) => None,
    }
}

} // verus!
