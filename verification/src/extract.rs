//! Converting HTML text content and attribute values into Rust values.

use vstd::prelude::*;

use crate::error::{IntErrorKind, ParseError, ParseIntError};
use crate::number::{decimal_reads_back, parse_int, parse_int_in};
use crate::text::{
    decimal, trim_idempotent, trim_removes_unicode_whitespace, unicode_white_space, chars_of, range_pieces, split_char, split_ranges, string_of_range, trim, trim_range,
    trim_range_in,
};

verus! {

/// Types that can be parsed from HTML text content or attribute values.
pub trait FromHtml: Sized {
    /// Whether `r` is what parsing the text `text` gives. A type that does
    /// not define it states nothing of its results.
    open spec fn text_yields(text: Seq<char>, r: Result<Self, ParseError>) -> bool {
        true
    }

    /// Whether `r` is what parsing the attribute value `attr` gives; unless
    /// the type says otherwise, the same as parsing it as text.
    open spec fn attr_yields(attr: Seq<char>, r: Result<Self, ParseError>) -> bool {
        Self::text_yields(attr, r)
    }

    /// Parse a value from HTML text content.
    fn from_text(text: &str) -> (r: Result<Self, ParseError>)
        ensures
            Self::text_yields(text@, r),
    ;

    /// Parse a value from an HTML attribute value (most types parse it as
    /// text).
    fn from_attr(attr: &str) -> (r: Result<Self, ParseError>)
        ensures
            Self::attr_yields(attr@, r),
    ;
}

impl FromHtml for String {
    /// No parsing: the text with its surrounding whitespace removed.
    open spec fn text_yields(text: Seq<char>, r: Result<String, ParseError>) -> bool {
        r matches Ok(s) && s@ == trim(text)
    }

    fn from_text(text: &str) -> (r: Result<String, ParseError>) {
        let v = chars_of(text);
        let (a, b) = trim_range(&v);
        Ok(string_of_range(&v, a, b))
    }

    fn from_attr(attr: &str) -> (r: Result<String, ParseError>) {
        Self::from_text(attr)
    }
}

/// What parsing `text` as an integer with range `[min, max]` gives: the
/// trimmed text read as `parse_int` says.
pub open spec fn int_outcome(text: Seq<char>, signed: bool, min: int, max: int) -> Result<
    int,
    IntErrorKind,
> {
    parse_int(trim(text), signed, min, max)
}

/// `r` is the number error for `text` with kind `k`.
pub open spec fn number_error<T>(text: Seq<char>, k: IntErrorKind, r: Result<T, ParseError>) -> bool {
    r matches Err(ParseError::InvalidNumber { text: t, error }) && t@ == text && error.kind == k
}

/// Parses the trimmed `text` as an integer within `[min, max]`.
fn parse_integer(text: &str, signed: bool, min: i128, max: i128) -> (r: Result<i128, ParseError>)
    requires
        -0x8000_0000_0000_0000 <= min <= 0 <= max <= 0xFFFF_FFFF_FFFF_FFFF,
    ensures
        match int_outcome(text@, signed, min as int, max as int) {
            Ok(n) => r matches Ok(v) && v == n && min <= v <= max,
            Err(k) => number_error(text@, k, r),
        },
{
    let v = chars_of(text);
    let (a, b) = trim_range(&v);
    match parse_int_in(&v, a, b, signed, min, max) {
        Ok(n) => Ok(n),
        Err(k) => Err(ParseError::InvalidNumber { text: text.to_owned(), error: ParseIntError { kind: k } }),
    }
}

impl FromHtml for i32 {
    open spec fn text_yields(text: Seq<char>, r: Result<i32, ParseError>) -> bool {
        match int_outcome(text, true, i32::MIN as int, i32::MAX as int) {
            Ok(n) => r matches Ok(v) && v as int == n,
            Err(k) => number_error(text, k, r),
        }
    }

    fn from_text(text: &str) -> (r: Result<i32, ParseError>) {
        match parse_integer(text, true, i32::MIN as i128, i32::MAX as i128) {
            Ok(n) => Ok(n as i32),
            Err(e) => Err(e),
        }
    }

    fn from_attr(attr: &str) -> (r: Result<i32, ParseError>) {
        Self::from_text(attr)
    }
}

impl FromHtml for u32 {
    open spec fn text_yields(text: Seq<char>, r: Result<u32, ParseError>) -> bool {
        match int_outcome(text, false, 0, u32::MAX as int) {
            Ok(n) => r matches Ok(v) && v as int == n,
            Err(k) => number_error(text, k, r),
        }
    }

    fn from_text(text: &str) -> (r: Result<u32, ParseError>) {
        match parse_integer(text, false, 0, u32::MAX as i128) {
            Ok(n) => Ok(n as u32),
            Err(e) => Err(e),
        }
    }

    fn from_attr(attr: &str) -> (r: Result<u32, ParseError>) {
        Self::from_text(attr)
    }
}

impl FromHtml for i64 {
    open spec fn text_yields(text: Seq<char>, r: Result<i64, ParseError>) -> bool {
        match int_outcome(text, true, i64::MIN as int, i64::MAX as int) {
            Ok(n) => r matches Ok(v) && v as int == n,
            Err(k) => number_error(text, k, r),
        }
    }

    fn from_text(text: &str) -> (r: Result<i64, ParseError>) {
        match parse_integer(text, true, i64::MIN as i128, i64::MAX as i128) {
            Ok(n) => Ok(n as i64),
            Err(e) => Err(e),
        }
    }

    fn from_attr(attr: &str) -> (r: Result<i64, ParseError>) {
        Self::from_text(attr)
    }
}

impl FromHtml for u64 {
    open spec fn text_yields(text: Seq<char>, r: Result<u64, ParseError>) -> bool {
        match int_outcome(text, false, 0, u64::MAX as int) {
            Ok(n) => r matches Ok(v) && v as int == n,
            Err(k) => number_error(text, k, r),
        }
    }

    fn from_text(text: &str) -> (r: Result<u64, ParseError>) {
        match parse_integer(text, false, 0, u64::MAX as i128) {
            Ok(n) => Ok(n as u64),
            Err(e) => Err(e),
        }
    }

    fn from_attr(attr: &str) -> (r: Result<u64, ParseError>) {
        Self::from_text(attr)
    }
}

/// The code of `c` after ASCII lower-casing.
pub open spec fn lower_code(c: char) -> u32 {
    let u = c as u32;
    if 65 <= u <= 90 {
        (u + 32) as u32
    } else {
        u
    }
}

/// `s`, lower-cased, is the lower-case word `w`. (For the ASCII words that
/// booleans are read from, Unicode and ASCII lower-casing agree: no other
/// character lower-cases to one of their letters.)
pub open spec fn lowercase_is(s: Seq<char>, w: Seq<char>) -> bool {
    s.len() == w.len() && forall|i: int| 0 <= i < s.len() ==> lower_code(s[i]) == w[i] as u32
}

/// The boolean that the trimmed word `w` names, if any.
pub open spec fn bool_word(w: Seq<char>) -> Option<bool> {
    if lowercase_is(w, "true"@) || lowercase_is(w, "1"@) || lowercase_is(w, "yes"@) || lowercase_is(
        w,
        "on"@,
    ) {
        Some(true)
    } else if lowercase_is(w, "false"@) || lowercase_is(w, "0"@) || lowercase_is(w, "no"@)
        || lowercase_is(w, "off"@) || w.len() == 0 {
        Some(false)
    } else {
        None
    }
}

fn lower_code_of(c: char) -> (r: u32)
    ensures
        r == lower_code(c),
{
    let u = c as u32;
    if 65 <= u && u <= 90 {
        u + 32
    } else {
        u
    }
}

/// Whether `v[a..b]`, lower-cased, is `word`.
fn range_lowercase_is(v: &Vec<char>, a: usize, b: usize, word: &str) -> (r: bool)
    requires
        a <= b <= v.len(),
    ensures
        r == lowercase_is(v@.subrange(a as int, b as int), word@),
{
    let w = chars_of(word);
    let ghost s = v@.subrange(a as int, b as int);
    if b - a != w.len() {
        return false;
    }
    let mut i: usize = 0;
    while i < w.len()
        invariant
            a <= b <= v.len(),
            b - a == w.len(),
            w@ == word@,
            s == v@.subrange(a as int, b as int),
            i <= w.len(),
            forall|k: int| 0 <= k < i ==> lower_code(s[k]) == w@[k] as u32,
        decreases w.len() - i,
    {
        if lower_code_of(v[a + i]) != w[i] as u32 {
            assert(s[i as int] == v@[a + i]);
            return false;
        }
        assert(s[i as int] == v@[a + i]);
        i = i + 1;
    }
    true
}

impl FromHtml for bool {
    /// "true", "1", "yes", "on" give `true`; "false", "0", "no", "off" and
    /// the empty text give `false`, in any letter case and around whitespace.
    open spec fn text_yields(text: Seq<char>, r: Result<bool, ParseError>) -> bool {
        match bool_word(trim(text)) {
            Some(b) => r == Ok::<bool, ParseError>(b),
            None => r matches Err(ParseError::InvalidBool { text: t }) && t@ == text,
        }
    }

    fn from_text(text: &str) -> (r: Result<bool, ParseError>) {
        let v = chars_of(text);
        let (a, b) = trim_range(&v);
        if range_lowercase_is(&v, a, b, "true") || range_lowercase_is(&v, a, b, "1")
            || range_lowercase_is(&v, a, b, "yes") || range_lowercase_is(&v, a, b, "on") {
            Ok(true)
        } else if range_lowercase_is(&v, a, b, "false") || range_lowercase_is(&v, a, b, "0")
            || range_lowercase_is(&v, a, b, "no") || range_lowercase_is(&v, a, b, "off") || a == b {
            Ok(false)
        } else {
            Err(ParseError::InvalidBool { text: text.to_owned() })
        }
    }

    fn from_attr(attr: &str) -> (r: Result<bool, ParseError>) {
        Self::from_text(attr)
    }
}

/// Whether `r` is what `T` gives for the text (or, with `attr`, the
/// attribute value) `t`.
pub open spec fn yields<T: FromHtml>(t: Seq<char>, r: Result<T, ParseError>, attr: bool) -> bool {
    if attr {
        T::attr_yields(t, r)
    } else {
        T::text_yields(t, r)
    }
}

/// What an optional value gives for `t`: `None` for blank text, the value
/// when `T` parses it, and `None` again when `T` fails; never an error.
pub open spec fn option_yields<T: FromHtml>(t: Seq<char>, r: Result<Option<T>, ParseError>, attr: bool) -> bool {
    if trim(t).len() == 0 {
        r matches Ok(None)
    } else {
        match r {
            Ok(Some(v)) => yields::<T>(t, Ok(v), attr),
            Ok(None) => exists|e: ParseError| yields::<T>(t, Err(e), attr),
            Err(_) => false,
        }
    }
}

fn option_parse<T: FromHtml>(t: &str, attr: bool) -> (r: Result<Option<T>, ParseError>)
    ensures
        option_yields::<T>(t@, r, attr),
{
    let v = chars_of(t);
    let (a, b) = trim_range(&v);
    if a == b {
        return Ok(None);
    }
    let inner = if attr {
        T::from_attr(t)
    } else {
        T::from_text(t)
    };
    match inner {
        Ok(value) => Ok(Some(value)),
        Err(e) => {
            assert(yields::<T>(t@, Err(e), attr));
            Ok(None)
        },
    }
}

impl<T: FromHtml> FromHtml for Option<T> {
    open spec fn text_yields(text: Seq<char>, r: Result<Option<T>, ParseError>) -> bool {
        option_yields::<T>(text, r, false)
    }

    open spec fn attr_yields(attr: Seq<char>, r: Result<Option<T>, ParseError>) -> bool {
        option_yields::<T>(attr, r, true)
    }

    fn from_text(text: &str) -> (r: Result<Option<T>, ParseError>) {
        option_parse::<T>(text, false)
    }

    fn from_attr(attr: &str) -> (r: Result<Option<T>, ParseError>) {
        option_parse::<T>(attr, true)
    }
}

/// `T` parses the trimmed piece `p` into some value.
pub open spec fn piece_parses<T: FromHtml>(p: Seq<char>, attr: bool) -> bool {
    exists|x: T| yields::<T>(trim(p), Ok(x), attr)
}

/// What a list gives for the comma-separated pieces `pieces`, each trimmed
/// and parsed by `T`: all the values, or the error of the first piece that
/// fails.
pub open spec fn pieces_yield<T: FromHtml>(
    pieces: Seq<Seq<char>>,
    r: Result<Vec<T>, ParseError>,
    attr: bool,
) -> bool {
    match r {
        Ok(v) => v@.len() == pieces.len() && forall|i: int|
            0 <= i < pieces.len() ==> yields::<T>(trim(pieces[i]), Ok(#[trigger] v@[i]), attr),
        Err(e) => exists|k: int|
            0 <= k < pieces.len() && (forall|i: int|
                0 <= i < k ==> #[trigger] piece_parses::<T>(pieces[i], attr)) && yields::<T>(
                trim(#[trigger] pieces[k]),
                Err(e),
                attr,
            ),
    }
}

/// What a list gives for `t`: empty for blank text, else its pieces between
/// commas as `pieces_yield` says.
pub open spec fn vec_yields<T: FromHtml>(t: Seq<char>, r: Result<Vec<T>, ParseError>, attr: bool) -> bool {
    if trim(t).len() == 0 {
        r matches Ok(v) && v@.len() == 0
    } else {
        pieces_yield::<T>(split_char(t, ','), r, attr)
    }
}

fn vec_parse<T: FromHtml>(t: &str, attr: bool) -> (r: Result<Vec<T>, ParseError>)
    ensures
        vec_yields::<T>(t@, r, attr),
{
    let v = chars_of(t);
    let (a, b) = trim_range(&v);
    if a == b {
        return Ok(Vec::new());
    }
    assert(trim(t@).len() > 0);
    let ranges = split_ranges(&v, ',');
    let ghost pieces = split_char(t@, ',');
    let mut out: Vec<T> = Vec::new();
    let mut k: usize = 0;
    while k < ranges.len()
        invariant
            v@ == t@,
            trim(t@).len() > 0,
            pieces == split_char(t@, ','),
            range_pieces(v@, ranges@) == pieces,
            forall|i: int| 0 <= i < ranges@.len() ==> #[trigger] ranges@[i].0 <= ranges@[i].1 <= v.len(),
            k <= ranges.len(),
            out@.len() == k,
            forall|i: int| 0 <= i < k ==> yields::<T>(trim(pieces[i]), Ok(#[trigger] out@[i]), attr),
        decreases ranges.len() - k,
    {
        let (from, to) = ranges[k];
        assert(pieces[k as int] == v@.subrange(from as int, to as int));
        let (pa, pb) = trim_range_in(&v, from, to);
        let piece = string_of_range(&v, pa, pb);
        let parsed = if attr {
            T::from_attr(piece.as_str())
        } else {
            T::from_text(piece.as_str())
        };
        match parsed {
            Ok(x) => {
                out.push(x);
            },
            Err(e) => {
                assert forall|i: int| 0 <= i < k implies #[trigger] piece_parses::<T>(
                    pieces[i],
                    attr,
                ) by {
                    assert(yields::<T>(trim(pieces[i]), Ok(out@[i]), attr));
                }
                assert(yields::<T>(trim(pieces[k as int]), Err(e), attr));
                assert(pieces.len() == ranges@.len());
                assert(0 <= k < pieces.len() && (forall|i: int|
                    0 <= i < k ==> #[trigger] piece_parses::<T>(pieces[i], attr)) && yields::<T>(
                    trim(pieces[k as int]),
                    Err(e),
                    attr,
                ));
                return Err(e);
            },
        }
        k = k + 1;
    }
    Ok(out)
}

impl<T: FromHtml> FromHtml for Vec<T> {
    open spec fn text_yields(text: Seq<char>, r: Result<Vec<T>, ParseError>) -> bool {
        vec_yields::<T>(text, r, false)
    }

    open spec fn attr_yields(attr: Seq<char>, r: Result<Vec<T>, ParseError>) -> bool {
        vec_yields::<T>(attr, r, true)
    }

    fn from_text(text: &str) -> (r: Result<Vec<T>, ParseError>) {
        vec_parse::<T>(text, false)
    }

    fn from_attr(attr: &str) -> (r: Result<Vec<T>, ParseError>) {
        vec_parse::<T>(attr, true)
    }
}

/// An optional value never fails to parse: blank or unparsable text gives
/// `None`.
pub proof fn optional_never_fails<T: FromHtml>(t: Seq<char>, r: Result<Option<T>, ParseError>)
    ensures
        <Option<T> as FromHtml>::text_yields(t, r) ==> r is Ok,
        <Option<T> as FromHtml>::attr_yields(t, r) ==> r is Ok,
{
}

/// The built-in types parse attribute values as they parse text.
pub proof fn attributes_parse_as_text(
    t: Seq<char>,
    rs: Result<String, ParseError>,
    ri: Result<i32, ParseError>,
    ru: Result<u32, ParseError>,
    rl: Result<i64, ParseError>,
    rq: Result<u64, ParseError>,
    rb: Result<bool, ParseError>,
)
    ensures
        <String as FromHtml>::attr_yields(t, rs) == <String as FromHtml>::text_yields(t, rs),
        <i32 as FromHtml>::attr_yields(t, ri) == <i32 as FromHtml>::text_yields(t, ri),
        <u32 as FromHtml>::attr_yields(t, ru) == <u32 as FromHtml>::text_yields(t, ru),
        <i64 as FromHtml>::attr_yields(t, rl) == <i64 as FromHtml>::text_yields(t, rl),
        <u64 as FromHtml>::attr_yields(t, rq) == <u64 as FromHtml>::text_yields(t, rq),
        <bool as FromHtml>::attr_yields(t, rb) == <bool as FromHtml>::text_yields(t, rb),
{
}

/// A type that parses attribute values as it parses text passes that on:
/// its optional values and its lists also parse attribute values as text.
pub proof fn containers_parse_attributes_as_text<T: FromHtml>(
    t: Seq<char>,
    ro: Result<Option<T>, ParseError>,
    rv: Result<Vec<T>, ParseError>,
)
    requires
        forall|s: Seq<char>, r: Result<T, ParseError>| #[trigger] T::attr_yields(s, r) == T::text_yields(s, r),
    ensures
        <Option<T> as FromHtml>::attr_yields(t, ro) == <Option<T> as FromHtml>::text_yields(t, ro),
        <Vec<T> as FromHtml>::attr_yields(t, rv) == <Vec<T> as FromHtml>::text_yields(t, rv),
{
    assert forall|s: Seq<char>, r: Result<T, ParseError>| #[trigger] yields::<T>(s, r, true) == yields::<T>(s, r, false) by {
        assert(T::attr_yields(s, r) == T::text_yields(s, r));
    }
    assert forall|p: Seq<char>| #[trigger] piece_parses::<T>(p, true) == piece_parses::<T>(p, false) by {
        if piece_parses::<T>(p, true) {
            let x = choose|x: T| yields::<T>(trim(p), Ok(x), true);
            assert(yields::<T>(trim(p), Ok(x), false));
        }
        if piece_parses::<T>(p, false) {
            let x = choose|x: T| yields::<T>(trim(p), Ok(x), false);
            assert(yields::<T>(trim(p), Ok(x), true));
        }
    }
    let ps = split_char(t, ',');
    match rv {
        Ok(v) => {
            assert(pieces_yield::<T>(ps, rv, true) == pieces_yield::<T>(ps, rv, false));
        },
        Err(e) => {
            if pieces_yield::<T>(ps, rv, true) {
                let k = choose|k: int|
                    0 <= k < ps.len() && (forall|i: int| 0 <= i < k ==> #[trigger] piece_parses::<T>(ps[i], true))
                        && yields::<T>(trim(#[trigger] ps[k]), Err(e), true);
                assert(yields::<T>(trim(ps[k]), Err(e), false));
                assert forall|i: int| 0 <= i < k implies #[trigger] piece_parses::<T>(ps[i], false) by {
                    assert(piece_parses::<T>(ps[i], true));
                }
            }
            if pieces_yield::<T>(ps, rv, false) {
                let k = choose|k: int|
                    0 <= k < ps.len() && (forall|i: int| 0 <= i < k ==> #[trigger] piece_parses::<T>(ps[i], false))
                        && yields::<T>(trim(#[trigger] ps[k]), Err(e), false);
                assert(yields::<T>(trim(ps[k]), Err(e), true));
                assert forall|i: int| 0 <= i < k implies #[trigger] piece_parses::<T>(ps[i], true) by {
                    assert(piece_parses::<T>(ps[i], false));
                }
            }
        },
    }
    if trim(t).len() != 0 {
        if let Ok(None) = ro {
            if exists|e: ParseError| yields::<T>(t, Err(e), true) {
                let e = choose|e: ParseError| yields::<T>(t, Err(e), true);
                assert(yields::<T>(t, Err(e), false));
            }
            if exists|e: ParseError| yields::<T>(t, Err(e), false) {
                let e = choose|e: ParseError| yields::<T>(t, Err(e), false);
                assert(yields::<T>(t, Err(e), true));
            }
        }
    }
}

/// Whitespace around a value does not change what it parses to: a Unicode
/// whitespace character before or after the text leaves a `String` and
/// the number that an integer type reads unchanged.
pub proof fn whitespace_around_values_is_ignored(
    c: char,
    t: Seq<char>,
    signed: bool,
    min: int,
    max: int,
    rs: Result<String, ParseError>,
)
    requires
        unicode_white_space(c),
    ensures
        int_outcome(seq![c] + t, signed, min, max) == int_outcome(t, signed, min, max),
        int_outcome(t + seq![c], signed, min, max) == int_outcome(t, signed, min, max),
        <String as FromHtml>::text_yields(seq![c] + t, rs) == <String as FromHtml>::text_yields(t, rs),
        <String as FromHtml>::text_yields(t + seq![c], rs) == <String as FromHtml>::text_yields(t, rs),
{
    trim_removes_unicode_whitespace(c, t);
}

/// Text read into a `String` reads back unchanged: parsing is trimming, and
/// trimmed text has nothing left to trim.
pub proof fn string_text_reads_back(t: Seq<char>, first: String, second: Result<String, ParseError>)
    requires
        <String as FromHtml>::text_yields(t, Ok(first)),
        <String as FromHtml>::text_yields(first@, second),
    ensures
        second matches Ok(s) && s@ == first@,
{
    trim_idempotent(t);
}

/// A number written in decimal reads back as that number, for each integer
/// type and every value of it that is not negative.
pub proof fn decimal_text_reads_back(
    n: nat,
    ri: Result<i32, ParseError>,
    ru: Result<u32, ParseError>,
    rl: Result<i64, ParseError>,
    rq: Result<u64, ParseError>,
)
    ensures
        n <= i32::MAX && <i32 as FromHtml>::text_yields(decimal(n), ri) ==> (ri matches Ok(v)
            && v == n),
        n <= u32::MAX && <u32 as FromHtml>::text_yields(decimal(n), ru) ==> (ru matches Ok(v)
            && v == n),
        n <= i64::MAX && <i64 as FromHtml>::text_yields(decimal(n), rl) ==> (rl matches Ok(v)
            && v == n),
        n <= u64::MAX && <u64 as FromHtml>::text_yields(decimal(n), rq) ==> (rq matches Ok(v)
            && v == n),
{
    if n <= i32::MAX {
        decimal_reads_back(n, true, i32::MIN as int, i32::MAX as int);
    }
    if n <= u32::MAX {
        decimal_reads_back(n, false, 0, u32::MAX as int);
    }
    if n <= i64::MAX {
        decimal_reads_back(n, true, i64::MIN as int, i64::MAX as int);
    }
    if n <= u64::MAX {
        decimal_reads_back(n, false, 0, u64::MAX as int);
    }
}

} // verus!
