//! Refining the text read for a field before it is parsed: a regular
//! expression keeps part of it, then a transform of the user's rewrites it.

use vstd::prelude::*;

use crate::fields::opt_view;

verus! {

/// The capture groups of the leftmost-first match of the regular expression
/// `pattern` in `text`, group 0 (the whole match) first, a group that took
/// no part in the match as `None`; `None` when `pattern` is no valid regular
/// expression or does not match. It depends on the two texts alone.
pub uninterp spec fn regex_capture_groups(pattern: Seq<char>, text: Seq<char>) -> Option<Seq<Option<Seq<char>>>>;

/// The views of a list of optional strings.
pub open spec fn opt_views(g: Seq<Option<String>>) -> Seq<Option<Seq<char>>> {
    g.map_values(|o: Option<String>| opt_view(o))
}

/// `regex::Regex::new(pattern)`, then `Regex::captures(text)` with each
/// group taken as a string: the result is `regex_capture_groups` of the two
/// texts, and in a match group 0 is always present.
#[verifier::external_body]
fn regex_captures(pattern: &str, text: &str) -> (r: Option<Vec<Option<String>>>)
    ensures
        match r {
            None => regex_capture_groups(pattern@, text@) is None,
            Some(g) => regex_capture_groups(pattern@, text@) == Some(opt_views(g@)),
        },
        r matches Some(g) ==> g@.len() >= 1 && g@[0] is Some,
{
    match regex::Regex::new(pattern) {
        Ok(re) => match re.captures(text) {
            Some(c) => Some(c.iter().map(|m| m.map(|m| m.as_str().to_owned())).collect()),
            None => None,
        },
        Err(_) => None,
    }
}

/// What a regular expression keeps of `text`: its first capture group where
/// the pattern has one that took part in the match, else the whole match;
/// the text unchanged where the pattern is invalid or does not match.
pub open spec fn regex_refined(pattern: Seq<char>, text: Seq<char>) -> Seq<char> {
    match regex_capture_groups(pattern, text) {
        None => text,
        Some(g) => if g.len() > 1 && g[1] is Some {
            g[1]->0
        } else if g.len() >= 1 && g[0] is Some {
            g[0]->0
        } else {
            text
        },
    }
}

/// The view of an optional string slice.
pub open spec fn str_view(o: Option<&str>) -> Option<Seq<char>> {
    match o {
        Some(s) => Some(s@),
        None => None,
    }
}

/// The text after the optional regular expression.
pub open spec fn regex_step(regex: Option<Seq<char>>, text: Seq<char>) -> Seq<char> {
    match regex {
        None => text,
        Some(p) => regex_refined(p, text),
    }
}

/// Keeps what the regular expression `pattern` keeps of `text`.
pub fn apply_regex(text: String, pattern: &str) -> (r: String)
    ensures
        r@ == regex_refined(pattern@, text@),
{
    match regex_captures(pattern, text.as_str()) {
        None => text,
        Some(groups) => {
            let ghost g = opt_views(groups@);
            if groups.len() > 1 {
                match &groups[1] {
                    Some(s) => {
                        assert(g[1] == Some(s@));
                        return s.clone();
                    },
                    None => {},
                }
            }
            match &groups[0] {
                Some(s) => {
                    assert(g[0] == Some(s@));
                    s.clone()
                },
                None => text,
            }
        },
    }
}

/// Whether `u` is what refining `t` gives: the regular expression first,
/// then the transform, if any.
pub open spec fn refines<F: Fn(String) -> String>(
    regex: Option<Seq<char>>,
    transform: Option<F>,
    t: Seq<char>,
    u: Seq<char>,
) -> bool {
    match transform {
        None => u == regex_step(regex, t),
        Some(f) => exists|s: String, out: String|
            s@ == regex_step(regex, t) && #[trigger] call_ensures(f, (s,), out) && out@ == u,
    }
}

/// A transform that accepts every string.
pub open spec fn total<F: Fn(String) -> String>(transform: Option<F>) -> bool {
    transform matches Some(f) ==> forall|s: String| #[trigger] call_requires(f, (s,))
}

/// Refines the text read for a field: the regular expression, if any, then
/// the transform, if any.
pub fn refine_text<F: Fn(String) -> String>(text: String, regex: Option<&str>, transform: &Option<F>) -> (r: String)
    requires
        total(*transform),
    ensures
        refines(str_view(regex), *transform, text@, r@),
{
    let narrowed = match regex {
        Some(p) => apply_regex(text, p),
        None => text,
    };
    match transform {
        Some(f) => {
            let out = f(narrowed);
            assert(call_ensures(*f, (narrowed,), out));
            out
        },
        None => narrowed,
    }
}

} // verus!
