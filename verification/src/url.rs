//! URL normalization used to recognise already-seen pages.

use vstd::prelude::*;

use crate::text::{
    append_range, chars_of, count_char, count_upto, find_char, find_first, lemma_count_char_take,
    lemma_find_char, lemma_find_char_at, string_of,
};

verus! {

/// `u` cut before its first `#`, if it has one.
pub open spec fn strip_fragment(u: Seq<char>) -> Seq<char> {
    match find_char(u, '#') {
        Some(p) => u.take(p),
        None => u,
    }
}

/// The normal form of a URL: the fragment is dropped, and a slash that ends
/// the part before the query (or the whole URL, when it has no query) is
/// dropped when that part holds more than three slashes, so that a root such as
/// `https://example.com/` keeps its slash.
pub open spec fn normalize_url(u: Seq<char>) -> Seq<char> {
    let s = strip_fragment(u);
    match find_char(s, '?') {
        Some(q) => if q > 0 && s[q - 1] == '/' && count_char(s.take(q), '/') > 3 {
            s.take(q - 1) + s.skip(q)
        } else {
            s
        },
        None => if s.len() > 0 && s.last() == '/' && count_char(s, '/') > 3 {
            s.drop_last()
        } else {
            s
        },
    }
}

/// The part of a URL before its fragment and before its query: the only part
/// whose trailing slash normalization may drop.
pub open spec fn path_part(u: Seq<char>) -> Seq<char> {
    let s = strip_fragment(u);
    match find_char(s, '?') {
        Some(q) => s.take(q),
        None => s,
    }
}

proof fn lemma_strip_fragment(u: Seq<char>)
    ensures
        forall|k: int| 0 <= k < strip_fragment(u).len() ==> strip_fragment(u)[k] != '#',
        strip_fragment(u).len() <= u.len(),
        forall|k: int| 0 <= k < strip_fragment(u).len() ==> strip_fragment(u)[k] == u[k],
{
    lemma_find_char(u, '#');
}

proof fn lemma_no_fragment_fixed(s: Seq<char>)
    requires
        forall|k: int| 0 <= k < s.len() ==> s[k] != '#',
    ensures
        strip_fragment(s) == s,
{
    lemma_find_char(s, '#');
}

/// A normalized URL holds no `#`: the fragment is always gone.
pub proof fn normalized_has_no_fragment(u: Seq<char>)
    ensures
        !normalize_url(u).contains('#'),
{
    let s = strip_fragment(u);
    lemma_strip_fragment(u);
    lemma_find_char(s, '?');
    let n = normalize_url(u);
    assert forall|k: int| 0 <= k < n.len() implies n[k] != '#' by {
        match find_char(s, '?') {
            Some(q) => {
                if q > 0 && s[q - 1] == '/' && count_char(s.take(q), '/') > 3 {
                    if k < q - 1 {
                        assert(n[k] == s[k]);
                    } else {
                        assert(n[k] == s[k + 1]);
                    }
                } else {
                    assert(n[k] == s[k]);
                }
            },
            None => {
                assert(n[k] == s[k]);
            },
        }
    }
}

/// URLs that differ only in their fragment normalize alike.
pub proof fn normalize_ignores_fragment(u: Seq<char>, f: Seq<char>)
    requires
        !u.contains('#'),
    ensures
        normalize_url(u + seq!['#'] + f) == normalize_url(u),
{
    let w = u + seq!['#'] + f;
    assert(w[u.len() as int] == '#');
    assert forall|k: int| 0 <= k < u.len() implies w[k] != '#' by {
        assert(w[k] == u[k]);
        if u[k] == '#' {
            assert(u.contains('#'));
        }
    }
    lemma_find_char_at(w, '#', u.len() as int);
    assert(w.take(u.len() as int) =~= u);
    assert forall|k: int| 0 <= k < u.len() implies u[k] != '#' by {
        if u[k] == '#' {
            assert(u.contains('#'));
        }
    }
    lemma_no_fragment_fixed(u);
}

/// A URL with at most three slashes before its fragment (a root such as
/// `https://example.com/`) only loses its fragment.
pub proof fn normalize_keeps_root(u: Seq<char>)
    requires
        count_char(strip_fragment(u), '/') <= 3,
    ensures
        normalize_url(u) == strip_fragment(u),
{
    let s = strip_fragment(u);
    lemma_find_char(s, '?');
    match find_char(s, '?') {
        Some(q) => {
            lemma_count_char_take(s, q, '/');
        },
        None => {},
    }
}

/// Normalizing twice gives what normalizing once gives, except where the part
/// before the query ends in two slashes and holds more than four slashes (there
/// each normalization drops one more slash).
pub proof fn normalize_idempotent(u: Seq<char>)
    requires
        !(path_part(u).len() >= 2 && path_part(u).last() == '/' && path_part(u)[path_part(u).len()
            - 2] == '/' && count_char(path_part(u), '/') > 4),
    ensures
        normalize_url(normalize_url(u)) == normalize_url(u),
{
    let s = strip_fragment(u);
    let n = normalize_url(u);
    lemma_strip_fragment(u);
    lemma_find_char(s, '?');
    normalized_has_no_fragment(u);
    assert forall|k: int| 0 <= k < n.len() implies n[k] != '#' by {
        if n[k] == '#' {
            assert(n.contains('#'));
        }
    }
    lemma_no_fragment_fixed(n);
    lemma_no_fragment_fixed(s);
    match find_char(s, '?') {
        Some(q) => {
            if q > 0 && s[q - 1] == '/' && count_char(s.take(q), '/') > 3 {
                assert(n[q - 1] == s[q]);
                assert forall|k: int| 0 <= k < q - 1 implies n[k] != '?' by {
                    assert(n[k] == s[k]);
                }
                lemma_find_char_at(n, '?', q - 1);
                assert(n.take(q - 1) =~= s.take(q - 1));
                assert(s.take(q).drop_last() =~= s.take(q - 1));
                if q - 1 > 0 && n[q - 2] == '/' {
                    assert(s.take(q).last() == '/');
                    assert(s.take(q)[q - 2] == '/');
                }
            }
        },
        None => {
            if s.len() > 0 && s.last() == '/' && count_char(s, '/') > 3 {
                assert forall|k: int| 0 <= k < n.len() implies n[k] != '?' by {
                    assert(n[k] == s[k]);
                }
                lemma_find_char(n, '?');
                if n.len() > 0 && n.last() == '/' {
                    assert(s[s.len() - 2] == '/');
                }
            }
        },
    }
}

/// Normalizes URLs so that equivalent URLs are treated as identical.
pub struct UrlNormalizer;

impl UrlNormalizer {
    /// Normalize a URL for deduplication: removes the fragment and a trailing
    /// slash of a non-root path.
    pub fn normalize(url: &str) -> (r: String)
        ensures
            r@ == normalize_url(url@),
    {
        let v = chars_of(url);
        let end = match find_first(&v, '#', v.len()) {
            Some(p) => p,
            None => v.len(),
        };
        proof {
            assert(v@.take(v.len() as int) =~= v@);
        }
        let ghost s = strip_fragment(url@);
        assert(s =~= v@.take(end as int));
        let mut out: Vec<char> = Vec::new();
        match find_first(&v, '?', end) {
            Some(q) => {
                if q > 0 && v[q - 1] == '/' && count_upto(&v, '/', q) > 3 {
                    assert(s.take(q as int) =~= v@.take(q as int));
                    append_range(&mut out, &v, 0, q - 1);
                    append_range(&mut out, &v, q, end);
                    assert(out@ =~= s.take(q - 1) + s.skip(q as int));
                } else {
                    assert(s.take(q as int) =~= v@.take(q as int));
                    append_range(&mut out, &v, 0, end);
                    assert(out@ =~= s);
                }
            },
            None => {
                if end > 0 && v[end - 1] == '/' && count_upto(&v, '/', end) > 3 {
                    append_range(&mut out, &v, 0, end - 1);
                    assert(out@ =~= s.drop_last());
                } else {
                    append_range(&mut out, &v, 0, end);
                    assert(out@ =~= s);
                }
            },
        }
        string_of(&out)
    }
}

} // verus!
