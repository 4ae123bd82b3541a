use scrapely::fields::{
    extract_default_attr_field, extract_default_text_field, extract_item_field,
    extract_list_attr_field, extract_optional_attr_field, list_field, optional_field,
    required_attr_field, required_text_field,
};
use scrapely::{ElementRef, ExtractionError, ItemTrait, ParseError};
use scraper::Html;

#[test]
fn required_text_rule() {
    match required_text_field::<i32>("n", ".n", None) {
        Err(ExtractionError::MissingField { field, selector }) => {
            assert_eq!((field.as_str(), selector.as_str()), ("n", ".n"))
        }
        _ => panic!("Expected MissingField"),
    }
    assert_eq!(required_text_field::<i32>("n", ".n", Some(" 8 ".to_string())).unwrap(), 8);
    match required_text_field::<i32>("n", ".n", Some("eight".to_string())) {
        Err(ExtractionError::ParseError { field, text, error: ParseError::InvalidNumber { .. } }) => {
            assert_eq!((field.as_str(), text.as_str()), ("n", "eight"))
        }
        _ => panic!("Expected ParseError"),
    }
}

#[test]
fn required_attr_rule() {
    match required_attr_field::<String>("url", "a", "href", Some(None)) {
        Err(ExtractionError::MissingField { selector, .. }) => assert_eq!(selector, "a[href]"),
        _ => panic!("Expected MissingField"),
    }
    match required_attr_field::<String>("url", "a", "href", None) {
        Err(ExtractionError::MissingField { selector, .. }) => assert_eq!(selector, "a"),
        _ => panic!("Expected MissingField"),
    }
    assert_eq!(
        required_attr_field::<String>("url", "a", "href", Some(Some("/x".to_string()))).unwrap(),
        "/x"
    );
}

#[test]
fn optional_and_list_rules() {
    assert_eq!(optional_field::<u32>(None, false), None);
    assert_eq!(optional_field::<u32>(Some("5".to_string()), true), Some(5));
    assert_eq!(optional_field::<u32>(Some("-5".to_string()), false), None);
    assert_eq!(
        list_field::<u32>("v", vec!["1".to_string(), "2".to_string()], false).unwrap(),
        vec![1, 2]
    );
    match list_field::<u32>("v", vec!["1".to_string(), "x".to_string(), "y".to_string()], false) {
        Err(ExtractionError::ParseError { field, text, .. }) => {
            assert_eq!((field.as_str(), text.as_str()), ("v", "x"))
        }
        _ => panic!("Expected ParseError"),
    }
}

#[test]
fn fields_read_from_a_document() {
    let html = Html::parse_document(
        r#"<div class="box">
            <a class="l" href="/one">1</a>
            <a class="l">no href</a>
            <a class="l" href="/two">2</a>
            <span class="count">many</span>
            <img class="pic" src="  ">
        </div>"#,
    );
    let root = html.root_element();
    let hrefs: Vec<String> = extract_list_attr_field(&root, "links", "a.l", "href").unwrap();
    assert_eq!(hrefs, vec!["/one", "/two"]);
    let count: i32 = extract_default_text_field(&root, ".count");
    assert_eq!(count, 0);
    let first: String = extract_default_attr_field(&root, "a.l", "href");
    assert_eq!(first, "/one");
    let missing: Option<String> = extract_optional_attr_field(&root, ".pic", "alt");
    assert_eq!(missing, None);
    let blank: Option<String> = extract_optional_attr_field(&root, ".pic", "src");
    assert_eq!(blank, Some(String::new()));
}

struct Anchor {
    href: String,
}

impl ItemTrait for Anchor {
    fn selector() -> &'static str {
        "a"
    }

    fn extract<E: ElementRef>(element: &E) -> Result<Self, ExtractionError> {
        let href = match element.attr("href") {
            Some(h) => h.to_string(),
            None => {
                return Err(ExtractionError::MissingField {
                    field: "href".to_string(),
                    selector: "a".to_string(),
                })
            }
        };
        Ok(Anchor { href })
    }
}

#[test]
fn item_fields() {
    let html = Html::parse_document(r#"<p><a href="/h">h</a></p><p class="e"></p>"#);
    let root = html.root_element();
    let anchor: Anchor = extract_item_field(&root, "anchor", "p").unwrap_or(Anchor { href: String::new() });
    // The first <p> holds no element whose own href is read: the <p> itself has none.
    assert_eq!(anchor.href, "");
    let anchors = Anchor::extract_all(&root).unwrap();
    assert_eq!(anchors.len(), 1);
    assert_eq!(anchors[0].href, "/h");
    match extract_item_field::<_, Anchor>(&root, "anchor", "table") {
        Err(ExtractionError::MissingField { field, selector }) => {
            assert_eq!((field.as_str(), selector.as_str()), ("anchor", "table"))
        }
        _ => panic!("Expected MissingField"),
    }
}
