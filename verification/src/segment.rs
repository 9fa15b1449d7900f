//! Normalization of one identity path segment.
//!
//! A segment such as a service name is normalized before it is used as a
//! part of a URL path: the segment is split on `'/'`, empty fragments are
//! discarded, the fragments are joined again with single `'/'` separators,
//! and exactly one trailing `'/'` is appended.  The result therefore never
//! contains a double separator and always ends in exactly one separator, so
//! a later join cannot clobber it.

use vstd::prelude::*;

verus! {

/// The normalized body of a segment: the non-empty `'/'`-separated fragments
/// of `s`, joined by single `'/'` separators, with no leading and no
/// trailing separator.
pub open spec fn norm_body(s: Seq<char>) -> Seq<char>
    decreases s.len(),
{
    if s.len() == 0 {
        Seq::empty()
    } else {
        let prev = norm_body(s.drop_last());
        let c = s.last();
        if c == '/' {
            prev
        } else if prev.len() == 0 {
            seq![c]
        } else if s[s.len() - 2] == '/' {
            prev + seq!['/'] + seq![c]
        } else {
            prev + seq![c]
        }
    }
}

/// A fully normalized segment: the normalized body followed by exactly one
/// trailing separator.
pub open spec fn norm_spec(s: Seq<char>) -> Seq<char> {
    norm_body(s) + seq!['/']
}

/// `s` contains no two adjacent separators.
pub open spec fn no_double_sep(s: Seq<char>) -> bool {
    forall|i: int| 0 <= i && i + 1 < s.len() ==> !((#[trigger] s[i]) == '/' && s[i + 1] == '/')
}

/// The normalized body never starts or ends with a separator and never
/// contains a double separator.
pub proof fn lemma_norm_body_canonical(s: Seq<char>)
    ensures
        norm_body(s).len() > 0 ==> norm_body(s).first() != '/',
        norm_body(s).len() > 0 ==> norm_body(s).last() != '/',
        no_double_sep(norm_body(s)),
    decreases s.len(),
{
    if s.len() > 0 {
        lemma_norm_body_canonical(s.drop_last());
    }
}

/// Scanning a body that is already canonical (no leading separator, no
/// double separator) reproduces it, up to one trailing separator.
proof fn lemma_norm_body_of_canonical(b: Seq<char>)
    requires
        b.len() > 0 ==> b.first() != '/',
        no_double_sep(b),
    ensures
        norm_body(b) == if b.len() > 0 && b.last() == '/' {
            b.drop_last()
        } else {
            b
        },
    decreases b.len(),
{
    if b.len() == 0 {
    } else {
        let b1 = b.drop_last();
        let c = b.last();
        if b1.len() > 0 {
            assert(b1.first() == b.first());
        }
        assert forall|i: int| 0 <= i && i + 1 < b1.len() implies !((#[trigger] b1[i]) == '/'
            && b1[i + 1] == '/') by {
            assert(b1[i] == b[i] && b1[i + 1] == b[i + 1]);
        }
        lemma_norm_body_of_canonical(b1);
        if c == '/' {
            // b1 cannot end with '/' (no double separator in b), and b1 is
            // not empty only when b is more than the single separator, which
            // a leading-separator-free b of length > 1 forbids anyway.
            if b1.len() > 0 {
                assert(!(b[b.len() - 2] == '/' && b[b.len() - 1] == '/'));
                assert(b1.last() != '/');
                assert(norm_body(b) == b1);
            } else {
                assert(b.first() == '/');
                assert(false);
            }
        } else {
            if b1.len() == 0 {
                assert(norm_body(b) == seq![c]);
                assert(norm_body(b) =~= b);
            } else if b1.last() == '/' {
                // The recursive scan dropped the trailing separator of b1;
                // the lookback then restores it before c.
                assert(b[b.len() - 2] == '/');
                if b1.len() == 1 {
                    assert(b.first() == '/');
                    assert(false);
                }
                assert(norm_body(b1).len() > 0 ==> norm_body(b1) == b1.drop_last());
                assert(b1.drop_last().len() > 0);
                assert(norm_body(b) =~= b1.drop_last() + seq!['/'] + seq![c]);
                assert(norm_body(b) =~= b);
            } else {
                assert(norm_body(b1) == b1);
                assert(norm_body(b) =~= b1 + seq![c]);
                assert(norm_body(b) =~= b);
            }
        }
    }
}

/// Law: segment normalization is idempotent.  Normalizing an already
/// normalized segment changes nothing, for every input string.
pub proof fn lemma_normalize_idempotent(s: Seq<char>)
    ensures
        norm_spec(norm_spec(s)) == norm_spec(s),
{
    let b = norm_body(s);
    lemma_norm_body_canonical(s);
    if b.len() == 0 {
        assert(norm_spec(s) =~= seq!['/']);
        assert(seq!['/'].drop_last() =~= Seq::<char>::empty());
        assert(norm_body(seq!['/']) =~= norm_body(Seq::<char>::empty()));
        assert(norm_spec(norm_spec(s)) =~= norm_spec(s));
    } else {
        let n = b + seq!['/'];
        assert(n.first() == b.first());
        assert forall|i: int| 0 <= i && i + 1 < n.len() implies !((#[trigger] n[i]) == '/' && n[i + 1]
            == '/') by {
            if i + 1 < b.len() {
                assert(n[i] == b[i] && n[i + 1] == b[i + 1]);
            } else {
                assert(n[i] == b.last());
            }
        }
        lemma_norm_body_of_canonical(n);
        assert(norm_body(n) =~= b);
        assert(norm_spec(norm_spec(s)) =~= norm_spec(s));
    }
}

/// Extending the scanned prefix of `s` by one whole fragment `s[i .. j]`
/// appends that fragment to the normalized body, behind a separator when a
/// fragment was already emitted.
proof fn lemma_norm_body_extend_fragment(s: Seq<char>, i: int, j: int)
    requires
        0 <= i < j <= s.len(),
        i == 0 || s[i - 1] == '/',
        forall|k: int| i <= k < j ==> s[k] != '/',
    ensures
        norm_body(s.take(j)) == if norm_body(s.take(i)).len() == 0 {
            s.subrange(i, j)
        } else {
            norm_body(s.take(i)) + seq!['/'] + s.subrange(i, j)
        },
    decreases j - i,
{
    let prefix = s.take(j);
    assert(prefix.drop_last() =~= s.take(j - 1));
    if j == i + 1 {
        let c = s[i];
        if norm_body(s.take(i)).len() == 0 {
            assert(norm_body(s.take(j)) == seq![c]);
            assert(norm_body(s.take(j)) =~= s.subrange(i, j));
        } else {
            // A non-empty body forces i >= 1, and then the lookback sees the
            // separator that closed the previous fragment.
            assert(i >= 1);
            assert(prefix[j - 2] == s[i - 1]);
            assert(norm_body(s.take(j)) =~= norm_body(s.take(i)) + seq!['/'] + s.subrange(i, j));
        }
    } else {
        lemma_norm_body_extend_fragment(s, i, j - 1);
        let c = s[j - 1];
        assert(prefix.last() == c);
        assert(prefix[j - 2] == s[j - 2]);
        assert(s[j - 2] != '/');
        assert(norm_body(s.take(j - 1)).len() > 0);
        assert(s.subrange(i, j - 1) + seq![c] =~= s.subrange(i, j));
        if norm_body(s.take(i)).len() == 0 {
            assert(norm_body(s.take(j)) =~= s.subrange(i, j));
        } else {
            assert(norm_body(s.take(j)) =~= norm_body(s.take(i)) + seq!['/'] + s.subrange(i, j));
        }
    }
}

/// Normalize one identity path segment: split on `'/'`, discard empty
/// fragments, join with single separators, and append exactly one trailing
/// separator.
pub fn normalize_segment(s: &str) -> (r: String)
    ensures
        r@ == norm_spec(s@),
        r@.len() > 0,
        r@.last() == '/',
        no_double_sep(r@),
        norm_spec(r@) == r@,
{
    let n = s.unicode_len();
    let mut out = String::new();
    let mut i: usize = 0;
    proof {
        assert(s@.take(0) =~= Seq::<char>::empty());
    }
    while i < n
        invariant
            i <= n,
            n == s@.len(),
            out@ == norm_body(s@.take(i as int)),
            i == 0 || i == n || s@[i as int - 1] == '/' || s@[i as int] == '/',
        decreases n - i,
    {
        let c = s.get_char(i);
        if c == '/' {
            proof {
                assert(s@.take(i + 1).drop_last() =~= s@.take(i as int));
                assert(norm_body(s@.take(i + 1)) == norm_body(s@.take(i as int)));
            }
            i = i + 1;
        } else {
            let ghost start = i as int;
            let mut j: usize = i;
            while j < n && s.get_char(j) != '/'
                invariant
                    i <= j <= n,
                    n == s@.len(),
                    forall|k: int| i <= k < j ==> s@[k] != '/',
                decreases n - j,
            {
                j = j + 1;
            }
            proof {
                lemma_norm_body_extend_fragment(s@, i as int, j as int);
            }
            if !out.as_str().is_empty() {
                out.append("/");
                proof {
                    reveal_strlit("/");
                    assert("/"@ =~= seq!['/']);
                }
            }
            let frag = s.substring_char(i, j);
            out.append(frag);
            proof {
                assert(frag@ =~= s@.subrange(start, j as int));
                assert(out@ =~= norm_body(s@.take(j as int)));
            }
            i = j;
        }
    }
    proof {
        assert(s@.take(n as int) =~= s@);
    }
    out.append("/");
    proof {
        reveal_strlit("/");
        assert("/"@ =~= seq!['/']);
        assert(out@ =~= norm_spec(s@));
        lemma_norm_body_canonical(s@);
        lemma_normalize_idempotent(s@);
        assert(out@.last() == '/');
        assert forall|k: int| 0 <= k && k + 1 < out@.len() implies !((#[trigger] out@[k]) == '/'
            && out@[k + 1] == '/') by {
            let b = norm_body(s@);
            if k + 1 < b.len() {
                assert(out@[k] == b[k] && out@[k + 1] == b[k + 1]);
            } else {
                assert(out@[k] == b.last());
            }
        }
    }
    out
}

} // verus!
