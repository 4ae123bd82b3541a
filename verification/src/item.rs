//! Types that can be extracted from HTML elements.

use vstd::prelude::*;

use crate::backend::{parse_document, root_element, ElementRef};
use crate::error::ExtractionError;

verus! {

/// A scraped data structure: extracted from the elements that match its CSS
/// selector.
pub trait Item: Sized {
    /// Whether `r` is what extracting an item from `element` gives. A type
    /// that does not define it states nothing of its results.
    open spec fn extracts<E: ElementRef>(element: E, r: Result<Self, ExtractionError>) -> bool {
        true
    }

    /// Whether `s` is what `selector()` gives. A type that does not define it
    /// states nothing of its selector.
    open spec fn selector_is(s: Seq<char>) -> bool {
        true
    }

    /// The CSS selector of the elements that each hold one item.
    fn selector() -> (r: &'static str)
        ensures
            Self::selector_is(r@),
    ;

    /// Extracts one item from `element`.
    fn extract<E: ElementRef>(element: &E) -> (r: Result<Self, ExtractionError>)
        ensures
            Self::extracts(*element, r),
    ;

    /// Extracts one item from each element under `root` that matches
    /// `Self::selector()`, in document order; the first failure is the result.
    fn extract_all<E: ElementRef>(root: &E) -> (r: Result<Vec<Self>, ExtractionError>)
        ensures
            exists|sel: Seq<char>, elements: Seq<E>, done: Seq<Self>|
                #![trigger root.selects_all(sel, elements), done.len()]
                Self::selector_is(sel) && root.selects_all(sel, elements) && done.len() <= elements.len()
                    && match r {
                    Ok(v) => v@.len() == elements.len() && forall|i: int|
                        0 <= i < elements.len() ==> Self::extracts(elements[i], Ok(#[trigger] v@[i])),
                    Err(e) => done.len() < elements.len() && (forall|i: int|
                        0 <= i < done.len() ==> Self::extracts(elements[i], Ok(#[trigger] done[i])))
                        && Self::extracts(elements[done.len() as int], Err(e)),
                },
    {
        let sel = Self::selector();
        let elements = root.select_all(sel);
        let mut out: Vec<Self> = Vec::new();
        let mut i: usize = 0;
        while i < elements.len()
            invariant
                Self::selector_is(sel@),
                root.selects_all(sel@, elements@),
                i <= elements@.len(),
                out@.len() == i,
                forall|k: int| 0 <= k < i ==> Self::extracts(elements@[k], Ok(#[trigger] out@[k])),
            decreases elements@.len() - i,
        {
            match Self::extract(&elements[i]) {
                Ok(x) => out.push(x),
                Err(e) => {
                    return Err(e);
                },
            }
            i = i + 1;
        }
        Ok(out)
    }

    /// Parses `html` as a document and extracts all items from it: one item
    /// from each element of the document that matches `Self::selector()`.
    fn from_html(html: &str) -> (r: Result<Vec<Self>, ExtractionError>)
        ensures
            exists|sel: Seq<char>, root: scraper::ElementRef, elements: Seq<scraper::ElementRef>, done: Seq<Self>|
                #![trigger root.selects_all(sel, elements), done.len()]
                Self::selector_is(sel) && root.selects_all(sel, elements) && done.len() <= elements.len()
                    && match r {
                    Ok(v) => v@.len() == elements.len() && forall|i: int|
                        0 <= i < elements.len() ==> Self::extracts(elements[i], Ok(#[trigger] v@[i])),
                    Err(e) => done.len() < elements.len() && (forall|i: int|
                        0 <= i < done.len() ==> Self::extracts(elements[i], Ok(#[trigger] done[i])))
                        && Self::extracts(elements[done.len() as int], Err(e)),
                },
    {
        let document = parse_document(html);
        let root = root_element(&document);
        Self::extract_all(&root)
    }
}

/// Whether `r` is what extracting an item from each of `elements` in turn
/// gives: all the items, or the failure of the first element that fails
/// after the items `done` of the elements before it.
pub open spec fn extracted_each<T: Item, E: ElementRef>(
    elements: Seq<E>,
    done: Seq<T>,
    r: Result<Vec<T>, ExtractionError>,
) -> bool {
    match r {
        Ok(v) => v@.len() == elements.len() && forall|i: int|
            0 <= i < elements.len() ==> T::extracts(elements[i], Ok(#[trigger] v@[i])),
        Err(e) => done.len() < elements.len() && (forall|i: int|
            0 <= i < done.len() ==> T::extracts(elements[i], Ok(#[trigger] done[i])))
            && T::extracts(elements[done.len() as int], Err(e)),
    }
}

/// Extracts an item from each of `elements` in turn, stopping at the first
/// failure.
pub fn extract_each<T: Item, E: ElementRef>(elements: &Vec<E>) -> (r: Result<Vec<T>, ExtractionError>)
    ensures
        exists|done: Seq<T>| #[trigger] extracted_each::<T, E>(elements@, done, r),
{
    let mut out: Vec<T> = Vec::new();
    let mut i: usize = 0;
    while i < elements.len()
        invariant
            i <= elements@.len(),
            out@.len() == i,
            forall|k: int| 0 <= k < i ==> T::extracts(elements@[k], Ok(#[trigger] out@[k])),
        decreases elements@.len() - i,
    {
        match T::extract(&elements[i]) {
            Ok(x) => out.push(x),
            Err(e) => {
                assert(extracted_each::<T, E>(elements@, out@, Err(e)));
                return Err(e);
            },
        }
        i = i + 1;
    }
    assert(extracted_each::<T, E>(elements@, out@, Ok(out)));
    Ok(out)
}

} // verus!
