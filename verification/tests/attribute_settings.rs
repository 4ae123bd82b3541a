use scrapely::item_attrs::{ContainerAttrs, FieldAttrs};
use scrapely::settings::{AttrArgs, AttrInput, MetaEntry, MetaKey, MetaValue};

fn key(name: &str) -> MetaKey {
    MetaKey::Ident(name.to_string())
}

fn string(name: &str, value: &str) -> MetaEntry {
    MetaEntry { key: key(name), value: MetaValue::Lit(Some(value.to_string())) }
}

fn entry(name: &str, value: MetaValue) -> MetaEntry {
    MetaEntry { key: key(name), value }
}

fn list(name: &str, entries: Vec<MetaEntry>) -> AttrInput {
    AttrInput { name: Some(name.to_string()), args: AttrArgs::List(entries) }
}

fn item_error(attrs: Vec<AttrInput>) -> String {
    match ContainerAttrs::from_attributes(&attrs) {
        Err(m) => m,
        Ok(c) => panic!("expected an error, got {:?}", c),
    }
}

fn field_error(attrs: Vec<AttrInput>) -> String {
    match FieldAttrs::from_attributes(&attrs) {
        Err(m) => m,
        Ok(f) => panic!("expected an error, got {:?}", f),
    }
}

#[test]
fn item_selector_is_read() {
    let c = ContainerAttrs::from_attributes(&vec![list("item", vec![string("selector", ".product")])]).unwrap();
    assert_eq!(c.selector, Some(".product".to_string()));
}

#[test]
fn item_without_attributes_has_no_selector() {
    let c = ContainerAttrs::from_attributes(&vec![]).unwrap();
    assert_eq!(c.selector, None);
}

#[test]
fn other_attributes_are_left_alone() {
    let attrs = vec![
        AttrInput { name: Some("doc".to_string()), args: AttrArgs::Assigned },
        list("derive", vec![entry("Debug", MetaValue::Empty)]),
        AttrInput { name: None, args: AttrArgs::Bare },
        list("item", vec![string("selector", "li")]),
        list("field", vec![entry("bogus", MetaValue::Other)]),
    ];
    let c = ContainerAttrs::from_attributes(&attrs).unwrap();
    assert_eq!(c.selector, Some("li".to_string()));
}

#[test]
fn later_selector_replaces_earlier() {
    let attrs = vec![
        list("item", vec![string("selector", "a"), string("selector", "b")]),
        list("item", vec![string("selector", "c")]),
    ];
    let c = ContainerAttrs::from_attributes(&attrs).unwrap();
    assert_eq!(c.selector, Some("c".to_string()));
}

#[test]
fn item_unknown_setting_is_rejected() {
    assert_eq!(item_error(vec![list("item", vec![string("name", "x")])]), "unknown item attribute");
    let path = MetaEntry { key: MetaKey::Path, value: MetaValue::Empty };
    assert_eq!(item_error(vec![list("item", vec![path])]), "unknown item attribute");
}

#[test]
fn item_selector_needs_a_string_literal() {
    assert_eq!(
        item_error(vec![list("item", vec![entry("selector", MetaValue::Lit(None))])]),
        "selector must be a string literal"
    );
    assert_eq!(
        item_error(vec![list("item", vec![entry("selector", MetaValue::EqOther)])]),
        "expected literal"
    );
    assert_eq!(
        item_error(vec![list("item", vec![entry("selector", MetaValue::EqEnd)])]),
        "unexpected end of input, expected literal"
    );
    assert_eq!(item_error(vec![list("item", vec![entry("selector", MetaValue::Empty)])]), "expected `=`");
    assert_eq!(
        item_error(vec![list("item", vec![entry("selector", MetaValue::LitThen(Some("a".to_string())))])]),
        "expected `,`"
    );
}

#[test]
fn item_attribute_needs_a_list() {
    let bare = AttrInput { name: Some("item".to_string()), args: AttrArgs::Bare };
    assert_eq!(item_error(vec![bare]), "expected attribute arguments in parentheses: #[item(...)]");
    let assigned = AttrInput { name: Some("item".to_string()), args: AttrArgs::Assigned };
    assert_eq!(item_error(vec![assigned]), "expected parentheses: #[item(...)]");
}

#[test]
fn key_that_is_no_path_is_rejected() {
    let literal = MetaEntry { key: MetaKey::Literal, value: MetaValue::Empty };
    assert_eq!(
        item_error(vec![list("item", vec![literal])]),
        "unexpected literal in nested attribute, expected ident"
    );
    let other = MetaEntry { key: MetaKey::Other, value: MetaValue::Empty };
    assert_eq!(
        field_error(vec![list("field", vec![other])]),
        "unexpected token in nested attribute, expected ident"
    );
}

#[test]
fn field_settings_are_read() {
    let attrs = vec![list(
        "field",
        vec![string("selector", ".price"), string("attr", "data-value"), entry("default", MetaValue::Empty)],
    )];
    let f = FieldAttrs::from_attributes(&attrs).unwrap();
    assert_eq!(f.selector, Some(".price".to_string()));
    assert_eq!(f.attr, Some("data-value".to_string()));
    assert!(f.default);
}

#[test]
fn field_without_settings_is_plain() {
    let f = FieldAttrs::from_attributes(&vec![list("field", vec![])]).unwrap();
    assert_eq!(f.selector, None);
    assert_eq!(f.attr, None);
    assert!(!f.default);
}

#[test]
fn field_settings_span_attributes() {
    let attrs = vec![list("field", vec![string("selector", "a")]), list("field", vec![string("attr", "href")])];
    let f = FieldAttrs::from_attributes(&attrs).unwrap();
    assert_eq!(f.selector, Some("a".to_string()));
    assert_eq!(f.attr, Some("href".to_string()));
    assert!(!f.default);
}

#[test]
fn field_default_takes_no_value() {
    assert_eq!(field_error(vec![list("field", vec![entry("default", MetaValue::Lit(None))])]), "expected `,`");
}

#[test]
fn field_attr_needs_a_string_literal() {
    assert_eq!(
        field_error(vec![list("field", vec![entry("attr", MetaValue::Lit(None))])]),
        "attr must be a string literal"
    );
}

#[test]
fn first_field_error_ends_the_reading() {
    let attrs = vec![list(
        "field",
        vec![string("selector", "a"), entry("bogus", MetaValue::Empty), entry("attr", MetaValue::Lit(None))],
    )];
    assert_eq!(field_error(attrs), "unknown field attribute");
    let bare = AttrInput { name: Some("field".to_string()), args: AttrArgs::Bare };
    assert_eq!(
        field_error(vec![bare, list("field", vec![entry("bogus", MetaValue::Empty)])]),
        "expected attribute arguments in parentheses: #[field(...)]"
    );
}
