use scrapely::fields::{
    extract_attr_field, extract_list_text_field, extract_optional_text_field, extract_text_field,
};
use scrapely::{ElementRef, ExtractionError, FromHtml, ItemTrait, ParseError};
use scraper::Html;

/// A float field, parsed by the test (floating point parsing is not part of
/// the library).
struct Float(f64);

impl FromHtml for Float {
    fn from_text(text: &str) -> Result<Self, ParseError> {
        text.trim()
            .parse::<f64>()
            .map(Float)
            .map_err(|e| ParseError::InvalidFloat {
                text: text.to_string(),
                error: e,
            })
    }

    fn from_attr(attr: &str) -> Result<Self, ParseError> {
        Self::from_text(attr)
    }
}

#[derive(Debug, PartialEq)]
struct Product {
    name: String,
    price: f64,
    stock: i32,
    available: bool,
}

impl ItemTrait for Product {
    fn selector() -> &'static str {
        ".product"
    }

    fn extract<E: ElementRef>(element: &E) -> Result<Self, ExtractionError> {
        let name = extract_text_field(element, "name", ".name")?;
        let price = extract_text_field::<E, Float>(element, "price", ".price")?.0;
        let stock = extract_text_field(element, "stock", ".stock")?;
        let available = extract_text_field(element, "available", ".available")?;
        Ok(Product { name, price, stock, available })
    }
}

#[test]
fn test_basic_extraction() {
    let html = Html::parse_document(
        r#"
        <div class="product">
            <span class="name">Widget</span>
            <span class="price">19.99</span>
            <span class="stock">42</span>
            <span class="available">true</span>
        </div>
    "#,
    );

    let product = Product::extract(&html.root_element()).expect("Failed to extract product");

    assert_eq!(product.name, "Widget");
    assert_eq!(product.price, 19.99);
    assert_eq!(product.stock, 42);
    assert_eq!(product.available, true);
}

#[derive(Debug)]
struct User {
    name: String,
    email: Option<String>,
    phone: Option<String>,
}

impl ItemTrait for User {
    fn selector() -> &'static str {
        ".user"
    }

    fn extract<E: ElementRef>(element: &E) -> Result<Self, ExtractionError> {
        let name = extract_text_field(element, "name", ".name")?;
        let email = extract_optional_text_field(element, ".email");
        let phone = extract_optional_text_field(element, ".phone");
        Ok(User { name, email, phone })
    }
}

#[test]
fn test_optional_fields() {
    let html = Html::parse_document(
        r#"
        <div class="user">
            <span class="name">John Doe</span>
            <span class="email">john@example.com</span>
        </div>
    "#,
    );

    let user = User::extract(&html.root_element()).expect("Failed to extract user");

    assert_eq!(user.name, "John Doe");
    assert_eq!(user.email, Some("john@example.com".to_string()));
    assert_eq!(user.phone, None);
}

#[derive(Debug)]
struct Article {
    title: String,
    tags: Vec<String>,
}

impl ItemTrait for Article {
    fn selector() -> &'static str {
        ".article"
    }

    fn extract<E: ElementRef>(element: &E) -> Result<Self, ExtractionError> {
        let title = extract_text_field(element, "title", ".title")?;
        let tags = extract_list_text_field(element, "tags", ".tag")?;
        Ok(Article { title, tags })
    }
}

#[test]
fn test_vec_fields() {
    let html = Html::parse_document(
        r#"
        <div class="article">
            <h1 class="title">My Article</h1>
            <span class="tag">rust</span>
            <span class="tag">web</span>
            <span class="tag">scraping</span>
        </div>
    "#,
    );

    let article = Article::extract(&html.root_element()).expect("Failed to extract article");

    assert_eq!(article.title, "My Article");
    assert_eq!(article.tags, vec!["rust", "web", "scraping"]);
}

#[derive(Debug)]
struct Link {
    url: String,
    text: String,
}

impl ItemTrait for Link {
    fn selector() -> &'static str {
        ".link-container"
    }

    fn extract<E: ElementRef>(element: &E) -> Result<Self, ExtractionError> {
        let url = extract_attr_field(element, "url", "a", "href")?;
        let text = extract_text_field(element, "text", "a")?;
        Ok(Link { url, text })
    }
}

#[test]
fn test_attribute_extraction() {
    let html = Html::parse_document(
        r#"
        <div class="link-container">
            <a href="https://example.com">Click here</a>
        </div>
    "#,
    );

    let link = Link::extract(&html.root_element()).expect("Failed to extract link");

    assert_eq!(link.url, "https://example.com");
    assert_eq!(link.text, "Click here");
}

#[test]
fn test_extract_all() {
    let html = Html::parse_document(
        r#"
        <div>
            <div class="product">
                <span class="name">Widget A</span>
                <span class="price">10.00</span>
                <span class="stock">5</span>
                <span class="available">true</span>
            </div>
            <div class="product">
                <span class="name">Widget B</span>
                <span class="price">20.00</span>
                <span class="stock">10</span>
                <span class="available">false</span>
            </div>
            <div class="product">
                <span class="name">Widget C</span>
                <span class="price">30.00</span>
                <span class="stock">15</span>
                <span class="available">true</span>
            </div>
        </div>
    "#,
    );

    let products = Product::extract_all(&html.root_element()).expect("Failed to extract products");

    assert_eq!(products.len(), 3);
    assert_eq!(products[0].name, "Widget A");
    assert_eq!(products[1].name, "Widget B");
    assert_eq!(products[2].name, "Widget C");
}

#[test]
fn from_html_parses_a_document() {
    let products = Product::from_html(
        r#"<ul><li class="product"><b class="name">Nut</b><i class="price">0.5</i>
           <i class="stock">7</i><i class="available">no</i></li></ul>"#,
    )
    .expect("Failed to extract products");
    assert_eq!(products.len(), 1);
    assert_eq!(
        products[0],
        Product { name: "Nut".to_string(), price: 0.5, stock: 7, available: false }
    );
}

#[test]
fn invalid_selectors_match_nothing() {
    let html = Html::parse_document(r#"<div class="a">x</div>"#);
    let root = html.root_element();
    assert!(root.select_one("[[").is_none());
    assert!(root.select_all("[[").is_empty());
    assert_eq!(root.select_all(".a").len(), 1);
    assert_eq!(ElementRef::text(&root.select_one(".a").unwrap()), "x");
}
