use scrapely::{FromHtml, IntErrorKind, ParseError};

/// A price, parsed as a float by the test itself.
#[derive(Debug, PartialEq)]
struct Price(f64);

impl FromHtml for Price {
    fn from_text(text: &str) -> Result<Self, ParseError> {
        text.trim()
            .parse::<f64>()
            .map(Price)
            .map_err(|e| ParseError::InvalidFloat {
                text: text.to_string(),
                error: e,
            })
    }

    fn from_attr(attr: &str) -> Result<Self, ParseError> {
        Self::from_text(attr)
    }
}

#[test]
fn string_is_trimmed() {
    assert_eq!(String::from_text("  Widget \n").unwrap(), "Widget");
    assert_eq!(String::from_attr("https://example.com").unwrap(), "https://example.com");
}

#[test]
fn integers_parse() {
    assert_eq!(i32::from_text("42").unwrap(), 42);
    assert_eq!(i32::from_text(" -17 ").unwrap(), -17);
    assert_eq!(u32::from_text("+7").unwrap(), 7);
    assert_eq!(i64::from_text("-9223372036854775808").unwrap(), i64::MIN);
    assert_eq!(u64::from_text("18446744073709551615").unwrap(), u64::MAX);
}

#[test]
fn integer_errors() {
    match i32::from_text("not a number") {
        Err(ParseError::InvalidNumber { text, error }) => {
            assert_eq!(text, "not a number");
            assert_eq!(error.kind, IntErrorKind::InvalidDigit);
        }
        _ => panic!("Expected InvalidNumber"),
    }
    match i32::from_text("   ") {
        Err(ParseError::InvalidNumber { error, .. }) => assert_eq!(error.kind, IntErrorKind::Empty),
        _ => panic!("Expected InvalidNumber"),
    }
    match i32::from_text("2147483648") {
        Err(ParseError::InvalidNumber { error, .. }) => {
            assert_eq!(error.kind, IntErrorKind::PosOverflow)
        }
        _ => panic!("Expected InvalidNumber"),
    }
    match i32::from_text("-2147483649") {
        Err(ParseError::InvalidNumber { error, .. }) => {
            assert_eq!(error.kind, IntErrorKind::NegOverflow)
        }
        _ => panic!("Expected InvalidNumber"),
    }
    match u32::from_text("-1") {
        Err(ParseError::InvalidNumber { error, .. }) => {
            assert_eq!(error.kind, IntErrorKind::InvalidDigit)
        }
        _ => panic!("Expected InvalidNumber"),
    }
    match u64::from_text("-") {
        Err(ParseError::InvalidNumber { error, .. }) => {
            assert_eq!(error.kind, IntErrorKind::InvalidDigit)
        }
        _ => panic!("Expected InvalidNumber"),
    }
}

#[test]
fn booleans_parse() {
    assert_eq!(bool::from_text("true").unwrap(), true);
    assert_eq!(bool::from_text(" YES ").unwrap(), true);
    assert_eq!(bool::from_text("On").unwrap(), true);
    assert_eq!(bool::from_text("1").unwrap(), true);
    assert_eq!(bool::from_text("False").unwrap(), false);
    assert_eq!(bool::from_text("0").unwrap(), false);
    assert_eq!(bool::from_text("off").unwrap(), false);
    assert_eq!(bool::from_text("").unwrap(), false);
    match bool::from_text("maybe") {
        Err(ParseError::InvalidBool { text }) => assert_eq!(text, "maybe"),
        _ => panic!("Expected InvalidBool"),
    }
}

#[test]
fn options_never_fail() {
    assert_eq!(Option::<i32>::from_text("12").unwrap(), Some(12));
    assert_eq!(Option::<i32>::from_text("twelve").unwrap(), None);
    assert_eq!(Option::<i32>::from_text("  ").unwrap(), None);
    assert_eq!(Option::<String>::from_attr(" a ").unwrap(), Some("a".to_string()));
}

#[test]
fn lists_split_on_commas() {
    assert_eq!(Vec::<i32>::from_text("1, 2 ,3").unwrap(), vec![1, 2, 3]);
    assert_eq!(Vec::<String>::from_text("rust, web").unwrap(), vec!["rust", "web"]);
    assert_eq!(Vec::<i32>::from_text("   ").unwrap(), Vec::<i32>::new());
    assert_eq!(
        Vec::<String>::from_text("a,,b").unwrap(),
        vec!["a".to_string(), "".to_string(), "b".to_string()]
    );
    match Vec::<i32>::from_text("1,x,y") {
        Err(ParseError::InvalidNumber { text, .. }) => assert_eq!(text, "x"),
        _ => panic!("Expected the first failing piece"),
    }
}

#[test]
fn custom_types_implement_from_html() {
    assert_eq!(Price::from_text(" 19.99 ").unwrap(), Price(19.99));
    assert!(Price::from_text("cheap").is_err());
    assert_eq!(Vec::<Price>::from_text("1.5,2").unwrap(), vec![Price(1.5), Price(2.0)]);
}

#[test]
fn parse_error_messages() {
    let e = i32::from_text("abc").unwrap_err();
    assert_eq!(e.to_string(), "Invalid number: abc");
    let e = bool::from_text("x").unwrap_err();
    assert_eq!(e.to_string(), "Invalid boolean: x");
    assert_eq!(
        IntErrorKind::PosOverflow.to_string(),
        "number too large to fit in target type"
    );
}

#[test]
fn decimal_text_reads_back() {
    for n in [0u64, 7, 10, 12345, u32::MAX as u64, u64::MAX] {
        let text = scrapely::text::decimal_string(n as usize);
        assert_eq!(text, n.to_string());
        assert_eq!(u64::from_text(&text).unwrap(), n);
    }
    assert_eq!(i32::from_text(&scrapely::text::decimal_string(2147483647)).unwrap(), i32::MAX);
}
