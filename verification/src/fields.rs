//! The extraction rules for the fields of an item: how a field's value is
//! obtained from the element its selector matches, according to whether
//! the field is required, optional, has a default, reads an attribute,
//! collects several elements, or is itself an item.
//!
//! The rules proper take what was read from the document as plain values;
//! the functions that read the document (`extract_*`) hand those values to
//! them.

use vstd::prelude::*;

use crate::backend::ElementRef;
use crate::error::{concat_str, ExtractionError, ParseError};
use crate::extract::FromHtml;
use crate::item::{extract_each, extracted_each, Item};
use crate::refine::{refine_text, refines, str_view, total};

verus! {

/// The view of an optional string.
pub open spec fn opt_view(o: Option<String>) -> Option<Seq<char>> {
    match o {
        Some(s) => Some(s@),
        None => None,
    }
}

/// Whether `r` is what `T` gives for `value`, read as text or, with `attr`,
/// as an attribute value.
pub open spec fn parses_to<T: FromHtml>(value: Seq<char>, r: Result<T, ParseError>, attr: bool) -> bool {
    if attr {
        T::attr_yields(value, r)
    } else {
        T::text_yields(value, r)
    }
}

/// `T` parses `value` into some value.
pub open spec fn parses<T: FromHtml>(value: Seq<char>, attr: bool) -> bool {
    exists|x: T| parses_to::<T>(value, Ok(x), attr)
}

/// `T` fails to parse `value`.
pub open spec fn rejects<T: FromHtml>(value: Seq<char>, attr: bool) -> bool {
    exists|e: ParseError| #[trigger] parses_to::<T>(value, Err(e), attr)
}

/// `r` is a missing-field error for `field` and `selector`.
pub open spec fn is_missing<T>(field: Seq<char>, selector: Seq<char>, r: Result<T, ExtractionError>) -> bool {
    r matches Err(ExtractionError::MissingField { field: f, selector: s }) && f@ == field && s@
        == selector
}

/// What a field gives for the value read for it: the parsed value, or a
/// parse error naming the field and keeping the value.
pub open spec fn field_value_yields<T: FromHtml>(
    field: Seq<char>,
    value: Seq<char>,
    r: Result<T, ExtractionError>,
    attr: bool,
) -> bool {
    match r {
        Ok(x) => parses_to::<T>(value, Ok(x), attr),
        Err(ExtractionError::ParseError { field: f, text, error }) => f@ == field && text@ == value
            && parses_to::<T>(value, Err(error), attr),
        Err(_) => false,
    }
}

/// Parses the value read for `field`.
pub fn parse_field<T: FromHtml>(field: &str, value: String, attr: bool) -> (r: Result<T, ExtractionError>)
    ensures
        field_value_yields::<T>(field@, value@, r, attr),
{
    let parsed = if attr {
        T::from_attr(value.as_str())
    } else {
        T::from_text(value.as_str())
    };
    match parsed {
        Ok(x) => Ok(x),
        Err(error) => Err(ExtractionError::ParseError { field: field.to_owned(), text: value, error }),
    }
}

/// What a required text field gives for the text of the element its
/// selector matched (`None`: no element matched).
pub open spec fn required_text_yields<T: FromHtml>(
    field: Seq<char>,
    selector: Seq<char>,
    text: Option<Seq<char>>,
    r: Result<T, ExtractionError>,
) -> bool {
    match text {
        None => is_missing(field, selector, r),
        Some(t) => field_value_yields::<T>(field, t, r, false),
    }
}

/// A required field read from text content.
pub fn required_text_field<T: FromHtml>(field: &str, selector: &str, text: Option<String>) -> (r:
    Result<T, ExtractionError>)
    ensures
        required_text_yields::<T>(field@, selector@, opt_view(text), r),
{
    match text {
        None => Err(
            ExtractionError::MissingField { field: field.to_owned(), selector: selector.to_owned() },
        ),
        Some(t) => parse_field::<T>(field, t, false),
    }
}

/// The selector that a missing-attribute error names: `selector[attr]`.
pub open spec fn attr_selector(selector: Seq<char>, attr_name: Seq<char>) -> Seq<char> {
    selector + "["@ + attr_name + "]"@
}

/// What a required attribute field gives: `found` is `None` when no element
/// matched, `Some(None)` when the element lacks the attribute, and
/// `Some(Some(v))` when its value is `v`.
pub open spec fn required_attr_yields<T: FromHtml>(
    field: Seq<char>,
    selector: Seq<char>,
    attr_name: Seq<char>,
    found: Option<Option<Seq<char>>>,
    r: Result<T, ExtractionError>,
) -> bool {
    match found {
        None => is_missing(field, selector, r),
        Some(None) => is_missing(field, attr_selector(selector, attr_name), r),
        Some(Some(v)) => field_value_yields::<T>(field, v, r, true),
    }
}

/// The view of what was found for an attribute field.
pub open spec fn found_view(found: Option<Option<String>>) -> Option<Option<Seq<char>>> {
    match found {
        None => None,
        Some(o) => Some(opt_view(o)),
    }
}

/// A required field read from an attribute.
pub fn required_attr_field<T: FromHtml>(
    field: &str,
    selector: &str,
    attr_name: &str,
    found: Option<Option<String>>,
) -> (r: Result<T, ExtractionError>)
    ensures
        required_attr_yields::<T>(field@, selector@, attr_name@, found_view(found), r),
{
    match found {
        None => Err(
            ExtractionError::MissingField { field: field.to_owned(), selector: selector.to_owned() },
        ),
        Some(None) => {
            let mut s = concat_str(selector, "[");
            s.append(attr_name);
            s.append("]");
            Err(ExtractionError::MissingField { field: field.to_owned(), selector: s })
        },
        Some(Some(v)) => parse_field::<T>(field, v, true),
    }
}

/// What an optional field gives for the value read for it (`None`: no
/// element, or no attribute): `None`, or the parsed value, or `None` again
/// when parsing fails.
pub open spec fn optional_yields<T: FromHtml>(value: Option<Seq<char>>, r: Option<T>, attr: bool) -> bool {
    match value {
        None => r is None,
        Some(v) => match r {
            Some(x) => parses_to::<T>(v, Ok(x), attr),
            None => rejects::<T>(v, attr),
        },
    }
}

/// An optional field, read from text or from an attribute.
pub fn optional_field<T: FromHtml>(value: Option<String>, attr: bool) -> (r: Option<T>)
    ensures
        optional_yields::<T>(opt_view(value), r, attr),
{
    match value {
        None => {
            assert(opt_view(value) is None);
            let r: Option<T> = None;
            assert(r is None);
            assert(optional_yields::<T>(None, r, attr));
            assert(optional_yields::<T>(opt_view(value), r, attr));
            r
        },
        Some(v) => {
            let parsed = if attr {
                T::from_attr(v.as_str())
            } else {
                T::from_text(v.as_str())
            };
            assert(opt_view(value) == Some(v@));
            match parsed {
                Ok(x) => {
                    assert(parses_to::<T>(v@, Ok(x), attr));
                    let r = Some(x);
                    assert(optional_yields::<T>(opt_view(value), r, attr));
                    r
                },
                Err(e) => {
                    assert(parses_to::<T>(v@, Err(e), attr));
                    assert(rejects::<T>(v@, attr));
                    let r: Option<T> = None;
                    assert(optional_yields::<T>(opt_view(value), r, attr));
                    r
                },
            }
        },
    }
}

/// What a list field gives for the values read from the elements its
/// selector matched: all parsed values in order, or the parse error of the
/// first value that fails, after values `done` for those before it.
pub open spec fn list_yields<T: FromHtml>(
    field: Seq<char>,
    values: Seq<Seq<char>>,
    done: Seq<T>,
    r: Result<Vec<T>, ExtractionError>,
    attr: bool,
) -> bool {
    match r {
        Ok(v) => v@.len() == values.len() && forall|i: int|
            0 <= i < values.len() ==> parses_to::<T>(values[i], Ok(#[trigger] v@[i]), attr),
        Err(ExtractionError::ParseError { field: f, text, error }) => f@ == field && done.len()
            < values.len() && (forall|i: int|
            0 <= i < done.len() ==> parses_to::<T>(values[i], Ok(#[trigger] done[i]), attr))
            && text@ == values[done.len() as int] && parses_to::<T>(
            values[done.len() as int],
            Err(error),
            attr,
        ),
        Err(_) => false,
    }
}

/// The views of a list of strings.
pub open spec fn views(v: Seq<String>) -> Seq<Seq<char>> {
    v.map_values(|s: String| s@)
}

/// A list field: parses each value in turn, stopping at the first failure.
pub fn list_field<T: FromHtml>(field: &str, values: Vec<String>, attr: bool) -> (r: Result<
    Vec<T>,
    ExtractionError,
>)
    ensures
        exists|done: Seq<T>| #[trigger] list_yields::<T>(field@, views(values@), done, r, attr),
{
    let ghost vs = views(values@);
    let mut out: Vec<T> = Vec::new();
    let mut i: usize = 0;
    while i < values.len()
        invariant
            vs == views(values@),
            i <= values@.len(),
            out@.len() == i,
            forall|k: int| 0 <= k < i ==> parses_to::<T>(vs[k], Ok(#[trigger] out@[k]), attr),
        decreases values@.len() - i,
    {
        let v = values[i].clone();
        assert(v@ == vs[i as int]);
        let parsed = if attr {
            T::from_attr(v.as_str())
        } else {
            T::from_text(v.as_str())
        };
        match parsed {
            Ok(x) => out.push(x),
            Err(error) => {
                let r = Err(ExtractionError::ParseError { field: field.to_owned(), text: v, error });
                assert(list_yields::<T>(field@, vs, out@, r, attr));
                return r;
            },
        }
        i = i + 1;
    }
    assert(list_yields::<T>(field@, vs, out@, Ok(out), attr));
    Ok(out)
}

// ----- what is read from the document -----

/// `text` is what is read for a text field: `None` when no element matches
/// `selector`, else the text of the first element that does.
pub open spec fn reads_text<E: ElementRef>(element: E, selector: Seq<char>, text: Option<Seq<char>>) -> bool {
    exists|found: Option<E>|
        #[trigger] element.selects_one(selector, found) && match found {
            None => text is None,
            Some(e) => text matches Some(t) && e.has_text(t),
        }
}

/// `found` is what is read for an attribute field: `None` when no element
/// matches `selector`, else the value of attribute `name` of the first
/// element that does (`Some(None)` when it lacks the attribute).
pub open spec fn reads_attr<E: ElementRef>(
    element: E,
    selector: Seq<char>,
    name: Seq<char>,
    found: Option<Option<Seq<char>>>,
) -> bool {
    exists|first: Option<E>|
        #[trigger] element.selects_one(selector, first) && match first {
            None => found is None,
            Some(e) => found matches Some(v) && e.has_attr_value(name, v),
        }
}

/// The value an optional attribute field reads: the attribute's value, or
/// `None` when no element matches or it lacks the attribute.
pub open spec fn attr_value(found: Option<Option<Seq<char>>>) -> Option<Seq<char>> {
    match found {
        Some(Some(v)) => Some(v),
        _ => None,
    }
}

/// `texts` are the texts of the elements `es`, in order.
pub open spec fn texts_of<E: ElementRef>(es: Seq<E>, texts: Seq<Seq<char>>) -> bool {
    &&& texts.len() == es.len()
    &&& forall|i: int| 0 <= i < es.len() ==> (#[trigger] es[i]).has_text(texts[i])
}

/// `values` is what is read for a list text field: the texts of all the
/// elements that `selector` matches, in order.
pub open spec fn reads_texts<E: ElementRef>(element: E, selector: Seq<char>, values: Seq<Seq<char>>) -> bool {
    exists|es: Seq<E>| #[trigger] element.selects_all(selector, es) && texts_of(es, values)
}

/// The values present among `vals`, in order.
pub open spec fn present(vals: Seq<Option<Seq<char>>>) -> Seq<Seq<char>>
    decreases vals.len(),
{
    if vals.len() == 0 {
        Seq::empty()
    } else {
        match vals.last() {
            Some(v) => present(vals.drop_last()).push(v),
            None => present(vals.drop_last()),
        }
    }
}

/// `vals` are the values of attribute `name` of the elements `es`, in order.
pub open spec fn attrs_of<E: ElementRef>(es: Seq<E>, name: Seq<char>, vals: Seq<Option<Seq<char>>>) -> bool {
    &&& vals.len() == es.len()
    &&& forall|i: int| 0 <= i < es.len() ==> (#[trigger] es[i]).has_attr_value(name, vals[i])
}

/// `values` is what is read for a list attribute field: the values of
/// attribute `name` of the elements that `selector` matches, in order,
/// skipping the elements that lack it.
pub open spec fn reads_attrs<E: ElementRef>(
    element: E,
    selector: Seq<char>,
    name: Seq<char>,
    values: Seq<Seq<char>>,
) -> bool {
    exists|es: Seq<E>, vals: Seq<Option<Seq<char>>>|
        #[trigger] element.selects_all(selector, es) && #[trigger] attrs_of(es, name, vals) && values == present(vals)
}

/// The text of the first element that `selector` matches.
fn find_text<E: ElementRef>(element: &E, selector: &str) -> (r: Option<String>)
    ensures
        reads_text(*element, selector@, opt_view(r)),
{
    let found = element.select_one(selector);
    match found {
        Some(e) => {
            let t = e.text();
            assert(element.selects_one(selector@, Some(e)));
            Some(t)
        },
        None => {
            assert(element.selects_one(selector@, None::<E>));
            None
        },
    }
}

/// The value of attribute `attr_name` of the first element that `selector`
/// matches: `None` when none matches, `Some(None)` when it lacks the
/// attribute.
fn find_attr<E: ElementRef>(element: &E, selector: &str, attr_name: &str) -> (r: Option<Option<String>>)
    ensures
        exists|found: Option<E>|
            #[trigger] element.selects_one(selector@, found) && match found {
                None => r is None,
                Some(e) => r matches Some(v) && e.has_attr_value(attr_name@, opt_view(v)),
            },
        reads_attr(*element, selector@, attr_name@, found_view(r)),
{
    match element.select_one(selector) {
        Some(e) => match e.attr(attr_name) {
            Some(v) => Some(Some(v.to_owned())),
            None => Some(None),
        },
        None => None,
    }
}

/// A required field read from the text of the first element that `selector`
/// matches: missing when none matches, else the text parsed.
pub fn extract_text_field<E: ElementRef, T: FromHtml>(element: &E, field: &str, selector: &str) -> (r:
    Result<T, ExtractionError>)
    ensures
        exists|text: Option<Seq<char>>|
            #[trigger] reads_text(*element, selector@, text) && required_text_yields::<T>(
                field@,
                selector@,
                text,
                r,
            ),
{
    let text = find_text(element, selector);
    let ghost t = opt_view(text);
    let r = required_text_field::<T>(field, selector, text);
    assert(reads_text(*element, selector@, t));
    r
}

/// A required field read from an attribute of the first element that
/// `selector` matches: missing when none matches or it lacks the attribute,
/// else the value parsed.
pub fn extract_attr_field<E: ElementRef, T: FromHtml>(
    element: &E,
    field: &str,
    selector: &str,
    attr_name: &str,
) -> (r: Result<T, ExtractionError>)
    ensures
        exists|found: Option<Option<Seq<char>>>|
            #[trigger] reads_attr(*element, selector@, attr_name@, found) && required_attr_yields::<T>(
                field@,
                selector@,
                attr_name@,
                found,
                r,
            ),
{
    let found = find_attr(element, selector, attr_name);
    let ghost f = found_view(found);
    let r = required_attr_field::<T>(field, selector, attr_name, found);
    assert(reads_attr(*element, selector@, attr_name@, f));
    r
}

/// What a required text field with a regular expression and a transform
/// gives for the text read (`None`: no element matched): missing, or the
/// refined text parsed.
pub open spec fn refined_text_yields<T: FromHtml, F: Fn(String) -> String>(
    field: Seq<char>,
    selector: Seq<char>,
    regex: Option<Seq<char>>,
    transform: Option<F>,
    text: Option<Seq<char>>,
    r: Result<T, ExtractionError>,
) -> bool {
    match text {
        None => is_missing(field, selector, r),
        Some(t) => exists|u: Seq<char>| #[trigger] refines(regex, transform, t, u) && field_value_yields::<T>(
            field,
            u,
            r,
            false,
        ),
    }
}

/// A required field read from the text of the first element that `selector`
/// matches, refined by the field's regular expression and transform before
/// it is parsed.
pub fn extract_refined_text_field<E: ElementRef, T: FromHtml, F: Fn(String) -> String>(
    element: &E,
    field: &str,
    selector: &str,
    regex: Option<&str>,
    transform: &Option<F>,
) -> (r: Result<T, ExtractionError>)
    requires
        total(*transform),
    ensures
        exists|text: Option<Seq<char>>|
            #[trigger] reads_text(*element, selector@, text) && refined_text_yields::<T, F>(
                field@,
                selector@,
                str_view(regex),
                *transform,
                text,
                r,
            ),
{
    let text = find_text(element, selector);
    let ghost t = opt_view(text);
    assert(reads_text(*element, selector@, t));
    match text {
        None => Err(ExtractionError::MissingField { field: field.to_owned(), selector: selector.to_owned() }),
        Some(t) => {
            let u = refine_text(t, regex, transform);
            let r = parse_field::<T>(field, u, false);
            assert(refines(str_view(regex), *transform, t@, u@));
            r
        },
    }
}

/// An optional field read from the text of the first element that
/// `selector` matches.
pub fn extract_optional_text_field<E: ElementRef, T: FromHtml>(element: &E, selector: &str) -> (r:
    Option<T>)
    ensures
        exists|text: Option<Seq<char>>|
            #[trigger] reads_text(*element, selector@, text) && optional_yields::<T>(text, r, false),
{
    let text = find_text(element, selector);
    let ghost t = opt_view(text);
    let r = optional_field::<T>(text, false);
    assert(reads_text(*element, selector@, t));
    r
}

/// An optional field read from an attribute of the first element that
/// `selector` matches.
pub fn extract_optional_attr_field<E: ElementRef, T: FromHtml>(
    element: &E,
    selector: &str,
    attr_name: &str,
) -> (r: Option<T>)
    ensures
        exists|found: Option<Option<Seq<char>>>|
            #[trigger] reads_attr(*element, selector@, attr_name@, found) && optional_yields::<T>(
                attr_value(found),
                r,
                true,
            ),
{
    let found = find_attr(element, selector, attr_name);
    let ghost f = found_view(found);
    assert(reads_attr(*element, selector@, attr_name@, f));
    let value = match found {
        Some(Some(v)) => Some(v),
        _ => None,
    };
    assert(opt_view(value) == attr_value(f));
    optional_field::<T>(value, true)
}

/// What a field with a default gives: what the optional rule gives, or,
/// where that is `None`, the type's default value.
pub open spec fn default_yields<T: FromHtml>(value: Option<Seq<char>>, r: T, attr: bool) -> bool {
    optional_yields::<T>(value, Some(r), attr) || optional_yields::<T>(value, None, attr)
}

/// A field with a default, read from text: the optional rule, and
/// `T::default()` where it gives `None`.
pub fn extract_default_text_field<E: ElementRef, T: FromHtml + Default>(element: &E, selector: &str) -> (r: T)
    ensures
        exists|text: Option<Seq<char>>|
            #[trigger] reads_text(*element, selector@, text) && (optional_yields::<T>(text, Some(r), false)
                || (optional_yields::<T>(text, None, false) && call_ensures(T::default, (), r))),
{
    let text = find_text(element, selector);
    let ghost t = opt_view(text);
    let o = optional_field::<T>(text, false);
    assert(reads_text(*element, selector@, t));
    match o {
        Some(x) => x,
        None => T::default(),
    }
}

/// A field with a default, read from an attribute: the optional rule, and
/// `T::default()` where it gives `None`.
pub fn extract_default_attr_field<E: ElementRef, T: FromHtml + Default>(
    element: &E,
    selector: &str,
    attr_name: &str,
) -> (r: T)
    ensures
        exists|found: Option<Option<Seq<char>>>|
            #[trigger] reads_attr(*element, selector@, attr_name@, found) && (optional_yields::<T>(
                attr_value(found),
                Some(r),
                true,
            ) || (optional_yields::<T>(attr_value(found), None, true) && call_ensures(T::default, (), r))),
{
    let found = find_attr(element, selector, attr_name);
    let ghost f = found_view(found);
    assert(reads_attr(*element, selector@, attr_name@, f));
    let value = match found {
        Some(Some(v)) => Some(v),
        _ => None,
    };
    assert(opt_view(value) == attr_value(f));
    let o = optional_field::<T>(value, true);
    match o {
        Some(x) => x,
        None => T::default(),
    }
}

/// A list field read from the text of every element that `selector`
/// matches, in order.
pub fn extract_list_text_field<E: ElementRef, T: FromHtml>(element: &E, field: &str, selector: &str) -> (r:
    Result<Vec<T>, ExtractionError>)
    ensures
        exists|values: Seq<Seq<char>>, done: Seq<T>|
            #[trigger] reads_texts(*element, selector@, values) && #[trigger] list_yields::<T>(
                field@,
                values,
                done,
                r,
                false,
            ),
{
    let elements = element.select_all(selector);
    let mut texts: Vec<String> = Vec::new();
    let mut i: usize = 0;
    while i < elements.len()
        invariant
            i <= elements@.len(),
            texts@.len() == i,
            forall|k: int| 0 <= k < i ==> (#[trigger] elements@[k]).has_text(texts@[k]@),
        decreases elements@.len() - i,
    {
        texts.push(elements[i].text());
        i = i + 1;
    }
    let ghost values = views(texts@);
    assert(texts_of(elements@, values));
    assert(reads_texts(*element, selector@, values));
    list_field::<T>(field, texts, false)
}

/// A list field read from an attribute of every element that `selector`
/// matches, in order; elements without the attribute are skipped.
pub fn extract_list_attr_field<E: ElementRef, T: FromHtml>(
    element: &E,
    field: &str,
    selector: &str,
    attr_name: &str,
) -> (r: Result<Vec<T>, ExtractionError>)
    ensures
        exists|values: Seq<Seq<char>>, done: Seq<T>|
            #[trigger] reads_attrs(*element, selector@, attr_name@, values) && #[trigger] list_yields::<T>(
                field@,
                values,
                done,
                r,
                true,
            ),
{
    let elements = element.select_all(selector);
    let mut values: Vec<String> = Vec::new();
    let ghost mut vals: Seq<Option<Seq<char>>> = Seq::empty();
    let mut i: usize = 0;
    while i < elements.len()
        invariant
            i <= elements@.len(),
            vals.len() == i,
            forall|k: int| 0 <= k < i ==> (#[trigger] elements@[k]).has_attr_value(attr_name@, vals[k]),
            views(values@) == present(vals),
        decreases elements@.len() - i,
    {
        let a = elements[i].attr(attr_name);
        proof {
            let v = match a {
                Some(s) => Some(s@),
                None => None,
            };
            assert(vals.push(v).drop_last() == vals);
            vals = vals.push(v);
        }
        match a {
            Some(v) => {
                values.push(v.to_owned());
                assert(views(values@) == present(vals));
            },
            None => {},
        }
        i = i + 1;
    }
    proof {
        assert(attrs_of(elements@, attr_name@, vals));
        assert(reads_attrs(*element, selector@, attr_name@, views(values@)));
    }
    list_field::<T>(field, values, true)
}

/// A required field that is itself an item, extracted from the first
/// element that `selector` matches: missing when none matches.
pub fn extract_item_field<E: ElementRef, T: Item>(element: &E, field: &str, selector: &str) -> (r:
    Result<T, ExtractionError>)
    ensures
        exists|found: Option<E>|
            #[trigger] element.selects_one(selector@, found) && match found {
                None => is_missing(field@, selector@, r),
                Some(e) => T::extracts(e, r),
            },
        is_missing(field@, selector@, r) || exists|e: E| T::extracts(e, r),
{
    let found = element.select_one(selector);
    match found {
        Some(e) => {
            let r = T::extract(&e);
            assert(element.selects_one(selector@, Some(e)));
            r
        },
        None => {
            assert(element.selects_one(selector@, None::<E>));
            Err(ExtractionError::MissingField { field: field.to_owned(), selector: selector.to_owned() })
        },
    }
}

/// `x` is what `T` extracts from some element.
pub open spec fn item_from_some_element<E: ElementRef, T: Item>(x: T) -> bool {
    exists|e: E| #[trigger] T::extracts(e, Ok(x))
}

/// An optional field that is itself an item: `None` when no element matches
/// `selector` or the extraction fails.
pub fn extract_optional_item_field<E: ElementRef, T: Item>(element: &E, selector: &str) -> (r: Option<T>)
    ensures
        r matches Some(x) ==> item_from_some_element::<E, T>(x),
        exists|found: Option<E>|
            #[trigger] element.selects_one(selector@, found) && match found {
                None => r is None,
                Some(e) => match r {
                    Some(x) => T::extracts(e, Ok(x)),
                    None => exists|err: ExtractionError| #[trigger] T::extracts(e, Err(err)),
                },
            },
{
    let found = element.select_one(selector);
    match found {
        Some(e) => match T::extract(&e) {
            Ok(x) => {
                assert(T::extracts(e, Ok(x)));
                assert(item_from_some_element::<E, T>(x));
                Some(x)
            },
            Err(err) => {
                assert(T::extracts(e, Err(err)));
                None
            },
        },
        None => None,
    }
}

/// A list field of items, extracted from every element that `selector`
/// matches, in document order; the first failure is the result.
pub fn extract_list_item_field<E: ElementRef, T: Item>(element: &E, selector: &str) -> (r: Result<
    Vec<T>,
    ExtractionError,
>)
    ensures
        exists|elements: Seq<E>, done: Seq<T>|
            #[trigger] element.selects_all(selector@, elements) && #[trigger] extracted_each::<T, E>(
                elements,
                done,
                r,
            ),
{
    let elements = element.select_all(selector);
    extract_each::<T, E>(&elements)
}

} // verus!
