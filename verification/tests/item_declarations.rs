use scrapely::item_attrs::{
    extract_inner_type, generate_field_extraction, get_item_type, is_likely_item_type, is_option,
    is_vec, validate_container_selector, validate_field_selector, validate_item,
    validate_no_conflicts, validate_struct_only, ContainerAttrs, DataKind, FieldAttrs,
    FieldExtraction, FieldType, TypeName,
};

fn path(name: &str) -> TypeName {
    TypeName::Path(name.to_string())
}

fn ty(outer: &str, inner: Option<&str>) -> FieldType {
    FieldType { outer: path(outer), inner: inner.map(path) }
}

fn attrs(attr: Option<&str>, default: bool) -> FieldAttrs {
    FieldAttrs {
        selector: Some(".x".to_string()),
        attr: attr.map(|a| a.to_string()),
        default,
        regex: None,
        transform: None,
    }
}

#[test]
fn type_shapes() {
    assert!(is_option(&ty("Option", Some("String"))));
    assert!(!is_option(&ty("Vec", Some("String"))));
    assert!(is_vec(&ty("Vec", Some("i32"))));
    assert!(matches!(extract_inner_type(&ty("Vec", Some("i32"))), Some(TypeName::Path(n)) if n == "i32"));
    assert!(extract_inner_type(&FieldType { outer: TypeName::Other, inner: None }).is_none());
    assert!(matches!(get_item_type(&ty("Option", Some("Author"))), TypeName::Path(n) if n == "Author"));
    assert!(matches!(get_item_type(&ty("Comment", None)), TypeName::Path(n) if n == "Comment"));
}

#[test]
fn item_types_are_the_non_standard_ones() {
    assert!(is_likely_item_type(&path("Comment")));
    assert!(!is_likely_item_type(&path("String")));
    assert!(!is_likely_item_type(&path("u128")));
    assert!(!is_likely_item_type(&TypeName::Other));
}

#[test]
fn extraction_rules() {
    let plain = attrs(None, false);
    assert_eq!(generate_field_extraction(&ty("String", None), &plain), FieldExtraction::RequiredText);
    assert_eq!(
        generate_field_extraction(&ty("Option", Some("String")), &plain),
        FieldExtraction::OptionalText
    );
    assert_eq!(generate_field_extraction(&ty("i32", None), &attrs(None, true)), FieldExtraction::DefaultText);
    assert_eq!(
        generate_field_extraction(&ty("String", None), &attrs(Some("href"), false)),
        FieldExtraction::RequiredAttr
    );
    assert_eq!(
        generate_field_extraction(&ty("Option", Some("String")), &attrs(Some("href"), false)),
        FieldExtraction::OptionalAttr
    );
    assert_eq!(
        generate_field_extraction(&ty("Vec", Some("String")), &attrs(Some("href"), false)),
        FieldExtraction::AttrList
    );
    assert_eq!(generate_field_extraction(&ty("Vec", Some("String")), &plain), FieldExtraction::TextList);
    assert_eq!(generate_field_extraction(&ty("Vec", Some("Comment")), &plain), FieldExtraction::ItemList);
    assert_eq!(
        generate_field_extraction(&ty("Option", Some("Author")), &plain),
        FieldExtraction::OptionalItem
    );
    assert_eq!(generate_field_extraction(&ty("Author", None), &plain), FieldExtraction::RequiredItem);
}

#[test]
fn declaration_validation() {
    assert!(validate_struct_only(DataKind::Struct).is_ok());
    assert_eq!(
        validate_struct_only(DataKind::Enum).unwrap_err(),
        "Item can only be derived for structs, not enums"
    );
    assert_eq!(
        validate_struct_only(DataKind::Union).unwrap_err(),
        "Item can only be derived for structs, not unions"
    );
    let none = ContainerAttrs { selector: None };
    assert_eq!(
        validate_container_selector(&none).unwrap_err(),
        "Item derive requires a selector attribute: #[item(selector = \"...\")]"
    );
    assert!(validate_item(DataKind::Struct, &ContainerAttrs { selector: Some(".q".to_string()) }).is_ok());
    assert!(validate_item(DataKind::Enum, &ContainerAttrs { selector: Some(".q".to_string()) }).is_err());

    let no_selector = FieldAttrs { selector: None, attr: None, default: false, regex: None, transform: None };
    assert_eq!(
        validate_field_selector(Some("title"), &no_selector).unwrap_err(),
        "Field 'title' requires a selector attribute: #[field(selector = \"...\")]"
    );
    assert_eq!(
        validate_field_selector(None, &no_selector).unwrap_err(),
        "Field 'unnamed field' requires a selector attribute: #[field(selector = \"...\")]"
    );
    assert_eq!(
        validate_no_conflicts(Some("url"), &attrs(Some("href"), true)).unwrap_err(),
        "Field 'url' cannot have both 'attr' and 'default' attributes"
    );
    assert!(validate_no_conflicts(Some("url"), &attrs(Some("href"), false)).is_ok());
}
