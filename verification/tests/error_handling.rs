use scrapely::fields::{
    extract_attr_field, extract_list_text_field, extract_optional_text_field, extract_text_field,
};
use scrapely::{ElementRef, ExtractionError, FromHtml, ItemTrait, ParseError};
use scraper::Html;

/// A float field, parsed by the test (floating point parsing is not part of
/// the library).
struct Float(f64);

impl FromHtml for Float {
    fn from_text(text: &str) -> Result<Self, ParseError> {
        text.trim()
            .parse::<f64>()
            .map(Float)
            .map_err(|e| ParseError::InvalidFloat {
                text: text.to_string(),
                error: e,
            })
    }

    fn from_attr(attr: &str) -> Result<Self, ParseError> {
        Self::from_text(attr)
    }
}

#[derive(Debug)]
struct Product {
    name: String,
    price: f64,
}

impl ItemTrait for Product {
    fn selector() -> &'static str {
        ".product"
    }

    fn extract<E: ElementRef>(element: &E) -> Result<Self, ExtractionError> {
        let name = extract_text_field(element, "name", ".name")?;
        let price = extract_text_field::<E, Float>(element, "price", ".price")?.0;
        Ok(Product { name, price })
    }
}

#[test]
fn test_missing_required_field() {
    let html = Html::parse_document(
        r#"
        <div class="product">
            <span class="name">Widget</span>
            <!-- price is missing -->
        </div>
    "#,
    );

    let result = Product::extract(&html.root_element());

    assert!(result.is_err());
    match result.unwrap_err() {
        ExtractionError::MissingField { field, selector } => {
            assert_eq!(field, "price");
            assert_eq!(selector, ".price");
        }
        _ => panic!("Expected MissingField error"),
    }
}

#[test]
fn test_parse_error() {
    let html = Html::parse_document(
        r#"
        <div class="product">
            <span class="name">Widget</span>
            <span class="price">not a number</span>
        </div>
    "#,
    );

    let result = Product::extract(&html.root_element());

    assert!(result.is_err());
    match result.unwrap_err() {
        ExtractionError::ParseError { field, text, .. } => {
            assert_eq!(field, "price");
            assert_eq!(text, "not a number");
        }
        _ => panic!("Expected ParseError"),
    }
}

#[test]
fn test_missing_element() {
    let html = Html::parse_document(
        r#"
        <div>
            <!-- No product element at all -->
        </div>
    "#,
    );

    let result = Product::extract(&html.root_element());

    assert!(result.is_err());
    match result.unwrap_err() {
        ExtractionError::MissingField { field, selector } => {
            assert_eq!(field, "name");
            assert_eq!(selector, ".name");
        }
        _ => panic!("Expected MissingField error"),
    }
}

#[derive(Debug)]
struct User {
    name: String,
    email: Option<String>,
}

impl ItemTrait for User {
    fn selector() -> &'static str {
        ".user"
    }

    fn extract<E: ElementRef>(element: &E) -> Result<Self, ExtractionError> {
        let name = extract_text_field(element, "name", ".name")?;
        let email = extract_optional_text_field(element, ".email");
        Ok(User { name, email })
    }
}

#[test]
fn test_optional_field_no_error() {
    let html = Html::parse_document(
        r#"
        <div class="user">
            <span class="name">John</span>
            <!-- email is missing but it's optional -->
        </div>
    "#,
    );

    let result = User::extract(&html.root_element());

    assert!(result.is_ok());
    let user = result.unwrap();
    assert_eq!(user.name, "John");
    assert_eq!(user.email, None);
}

#[derive(Debug)]
struct Data {
    value: Option<i32>,
}

impl ItemTrait for Data {
    fn selector() -> &'static str {
        ".data"
    }

    fn extract<E: ElementRef>(element: &E) -> Result<Self, ExtractionError> {
        let value = extract_optional_text_field(element, ".value");
        Ok(Data { value })
    }
}

#[test]
fn test_optional_field_parse_failure() {
    let html = Html::parse_document(
        r#"
        <div class="data">
            <span class="value">not a number</span>
        </div>
    "#,
    );

    let result = Data::extract(&html.root_element());

    // Optional fields give None on a parse failure, not an error
    assert!(result.is_ok());
    let data = result.unwrap();
    assert_eq!(data.value, None);
}

#[derive(Debug)]
struct Numbers {
    values: Vec<i32>,
}

impl ItemTrait for Numbers {
    fn selector() -> &'static str {
        ".numbers"
    }

    fn extract<E: ElementRef>(element: &E) -> Result<Self, ExtractionError> {
        let values = extract_list_text_field(element, "values", ".num")?;
        Ok(Numbers { values })
    }
}

#[test]
fn test_vec_field_parse_error() {
    let html = Html::parse_document(
        r#"
        <div class="numbers">
            <span class="num">1</span>
            <span class="num">not a number</span>
            <span class="num">3</span>
        </div>
    "#,
    );

    let result = Numbers::extract(&html.root_element());

    // A list field fails when any element fails to parse
    assert!(result.is_err());
    match result.unwrap_err() {
        ExtractionError::ParseError { field, text, .. } => {
            assert_eq!(field, "values");
            assert_eq!(text, "not a number");
        }
        _ => panic!("Expected ParseError"),
    }
}

#[derive(Debug)]
struct Link {
    url: String,
}

impl ItemTrait for Link {
    fn selector() -> &'static str {
        ".link-container"
    }

    fn extract<E: ElementRef>(element: &E) -> Result<Self, ExtractionError> {
        let url = extract_attr_field(element, "url", "a", "href")?;
        Ok(Link { url })
    }
}

#[test]
fn test_attribute_missing() {
    let html = Html::parse_document(
        r#"
        <div class="link-container">
            <a>Link without href</a>
        </div>
    "#,
    );

    let result = Link::extract(&html.root_element());

    assert!(result.is_err());
    match result.unwrap_err() {
        ExtractionError::MissingField { field, selector } => {
            assert_eq!(field, "url");
            // The selector names the missing attribute
            assert!(selector.contains("a") && selector.contains("href"));
            assert_eq!(selector, "a[href]");
        }
        _ => panic!("Expected MissingField error"),
    }
}

#[test]
fn test_error_context_includes_field_info() {
    let html = Html::parse_document(
        r#"
        <div class="product">
            <span class="name">Widget</span>
            <span class="price">invalid</span>
        </div>
    "#,
    );

    let result = Product::extract(&html.root_element());

    assert!(result.is_err());
    let error = result.unwrap_err();
    let error_message = error.to_string();

    // The message names the field and the text
    assert!(error_message.contains("price"));
    assert!(error_message.contains("invalid"));
    assert_eq!(
        error_message,
        "Failed to parse field 'price' from text 'invalid': Invalid float: invalid"
    );
}

#[test]
fn missing_field_message() {
    let e = ExtractionError::MissingField { field: "name".to_string(), selector: ".n".to_string() };
    assert_eq!(e.to_string(), "Required field 'name' not found using selector '.n'");
    let e = ExtractionError::InvalidSelector { selector: "[[".to_string(), error: "bad".to_string() };
    assert_eq!(e.to_string(), "Failed to parse selector '[[': bad");
    let e = ExtractionError::Multiple { errors: vec![] };
    assert!(e.to_string().starts_with("Multiple errors occurred: "));
}

#[test]
fn multiple_errors_render_integer_errors_as_std_does() {
    let inner = scrapely::ExtractionError::ParseError {
        field: "n".to_string(),
        text: "x".to_string(),
        error: scrapely::ParseError::InvalidNumber {
            text: "x".to_string(),
            error: scrapely::ParseIntError { kind: scrapely::IntErrorKind::InvalidDigit },
        },
    };
    let e = scrapely::ExtractionError::Multiple { errors: vec![inner] };
    let m = e.to_string();
    assert!(m.starts_with("Multiple errors occurred: "));
    assert!(m.contains("ParseIntError { kind: InvalidDigit }"));
}
