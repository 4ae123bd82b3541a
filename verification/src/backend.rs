//! The HTML element abstraction that extraction works on, and its
//! implementation for the `scraper` crate.

use vstd::prelude::*;

use scraper::ElementRef as HtmlElement;

verus! {

/// An HTML element that can be queried with CSS selectors. Implement it to
/// extract items from the documents of another HTML parser.
pub trait ElementRef: Sized {
    /// Whether `r` is what `select_one(selector)` gives on this element. An
    /// implementation that does not define it states nothing of its results.
    open spec fn selects_one(&self, selector: Seq<char>, r: Option<Self>) -> bool {
        true
    }

    /// Whether `r` is what `select_all(selector)` gives on this element. An
    /// implementation that does not define it states nothing of its results.
    open spec fn selects_all(&self, selector: Seq<char>, r: Seq<Self>) -> bool {
        true
    }

    /// Whether `t` is what `text()` gives on this element. An implementation
    /// that does not define it states nothing of its results.
    open spec fn has_text(&self, t: Seq<char>) -> bool {
        true
    }

    /// Whether `r` is what `attr(name)` gives on this element. An
    /// implementation that does not define it states nothing of its results.
    open spec fn has_attr_value(&self, name: Seq<char>, r: Option<Seq<char>>) -> bool {
        true
    }

    /// The first descendant element matching the CSS selector; `None` if no
    /// element matches or the selector is invalid.
    fn select_one(&self, selector: &str) -> (r: Option<Self>)
        ensures
            self.selects_one(selector@, r),
    ;

    /// All descendant elements matching the CSS selector, in document order;
    /// empty if none matches or the selector is invalid.
    fn select_all(&self, selector: &str) -> (r: Vec<Self>)
        ensures
            self.selects_all(selector@, r@),
    ;

    /// The text content of the element, including that of its descendants.
    fn text(&self) -> (r: String)
        ensures
            self.has_text(r@),
    ;

    /// The value of an HTML attribute, if the element has it.
    fn attr(&self, name: &str) -> (r: Option<&str>)
        ensures
            self.has_attr_value(
                name@,
                match r {
                    Some(v) => Some(v@),
                    None => None,
                },
            ),
    ;

    /// The inner HTML of the element.
    fn inner_html(&self) -> String;
}

#[verifier::external_type_specification]
#[verifier::external_body]
pub struct ExHtmlElement<'a>(HtmlElement<'a>);

#[verifier::external_type_specification]
#[verifier::external_body]
pub struct ExSelector(scraper::Selector);

#[verifier::external_type_specification]
#[verifier::external_body]
pub struct ExHtml(scraper::Html);

/// Whether `scraper::Selector::parse` accepts `selector` (CSS selector
/// syntax; the answer depends on the text alone).
pub uninterp spec fn css_selector_parses(selector: Seq<char>) -> bool;

/// `scraper::Selector::parse`: succeeds exactly on the selectors that
/// `css_selector_parses` accepts.
#[verifier::external_body]
fn parse_selector(selector: &str) -> (r: Option<scraper::Selector>)
    ensures
        r is Some <==> css_selector_parses(selector@),
{
    scraper::Selector::parse(selector).ok()
}

/// `HtmlElement::select`, first match. Nothing is stated of which
/// element it is: that depends on the parsed document.
#[verifier::external_body]
fn first_match<'a>(element: &HtmlElement<'a>, selector: &scraper::Selector) -> Option<
    HtmlElement<'a>,
> {
    element.select(selector).next()
}

/// `HtmlElement::select`, all matches in document order. Nothing is
/// stated of which elements they are.
#[verifier::external_body]
fn all_matches<'a>(element: &HtmlElement<'a>, selector: &scraper::Selector) -> Vec<
    HtmlElement<'a>,
> {
    element.select(selector).collect()
}

/// `HtmlElement::text`, concatenated. Nothing is stated of the text.
#[verifier::external_body]
fn element_text(element: &HtmlElement) -> String {
    element.text().collect()
}

/// `HtmlElement::attr`. Nothing is stated of the value.
#[verifier::external_body]
fn element_attr<'a>(element: &HtmlElement<'a>, name: &str) -> Option<&'a str> {
    element.attr(name)
}

/// `HtmlElement::inner_html`. Nothing is stated of the markup.
#[verifier::external_body]
fn element_inner_html(element: &HtmlElement) -> String {
    element.inner_html()
}

/// A document parsed from HTML text. Only `parse_document` makes one, so
/// every value of it holds a tree built by the HTML parser, which always has
/// an `html` root element.
pub struct ParsedDocument {
    html: scraper::Html,
}

/// `scraper::Html::parse_document`. Nothing is stated of the tree; the
/// parser always builds one with an `html` root element, whatever the input.
#[verifier::external_body]
pub(crate) fn parse_document(html: &str) -> ParsedDocument {
    ParsedDocument { html: scraper::Html::parse_document(html) }
}

/// `scraper::Html::root_element`: the `html` element of a parsed document.
/// It panics only on a tree without an element child, which
/// `parse_document` never builds.
#[verifier::external_body]
pub(crate) fn root_element(document: &ParsedDocument) -> HtmlElement<'_> {
    document.html.root_element()
}

impl<'a> ElementRef for HtmlElement<'a> {
    /// An invalid selector matches nothing; what a valid one matches
    /// depends on the parsed document.
    open spec fn selects_one(&self, selector: Seq<char>, r: Option<Self>) -> bool {
        css_selector_parses(selector) || r is None
    }

    /// An invalid selector matches nothing; what a valid one matches
    /// depends on the parsed document.
    open spec fn selects_all(&self, selector: Seq<char>, r: Seq<Self>) -> bool {
        css_selector_parses(selector) || r.len() == 0
    }

    fn select_one(&self, selector: &str) -> (r: Option<Self>)
        ensures
            !css_selector_parses(selector@) ==> r is None,
    {
        match parse_selector(selector) {
            Some(s) => first_match(self, &s),
            None => None,
        }
    }

    fn select_all(&self, selector: &str) -> (r: Vec<Self>)
        ensures
            !css_selector_parses(selector@) ==> r@.len() == 0,
    {
        match parse_selector(selector) {
            Some(s) => all_matches(self, &s),
            None => Vec::new(),
        }
    }

    fn text(&self) -> String {
        element_text(self)
    }

    fn attr(&self, name: &str) -> Option<&str> {
        element_attr(self, name)
    }

    fn inner_html(&self) -> String {
        element_inner_html(self)
    }
}

} // verus!
