use axum_required_headers::extractors::{Optional, Required};
use axum_required_headers::{HeaderBinding, HeaderError, OptionalPolicy, Parser, Value};

fn header_map(pairs: &[(&str, &str)]) -> http::HeaderMap {
    let mut m = http::HeaderMap::new();
    for (k, v) in pairs {
        let name = http::header::HeaderName::from_bytes(k.as_bytes()).unwrap();
        let value = http::HeaderValue::from_str(v).unwrap();
        m.insert(name, value);
    }
    m
}

fn binding(name: &str, required: bool, parser: Parser) -> HeaderBinding {
    HeaderBinding::new(name.to_string(), required, parser).unwrap()
}

// ============================================================================
// ERROR CODES AND MESSAGES (THE REJECTION PAYLOAD'S PARTS)
// ============================================================================

#[test]
fn test_missing_header_error_code_and_message() {
    let e = HeaderError::Missing("x-organization-id".to_string());
    assert_eq!(e.code(), "missing_header");
    assert_eq!(e.message(), "Missing required header: `x-organization-id`");
    assert!(e.message().contains("x-organization-id"));
    assert_eq!(e.name().as_str(), "x-organization-id");
}

#[test]
fn test_invalid_header_value_error_code_and_message() {
    let e = HeaderError::InvalidValue("x-organization-id".to_string());
    assert_eq!(e.code(), "invalid_header_value");
    assert_eq!(
        e.message(),
        "Invalid header value (not valid ASCII): `x-organization-id`"
    );
    assert!(e.message().contains("x-organization-id"));
}

#[test]
fn test_parse_error_code_and_message() {
    let e = HeaderError::Parse("x-positive-int".to_string());
    assert_eq!(e.code(), "header_parse_error");
    assert_eq!(e.message(), "Failed to parse header value: `x-positive-int`");
    assert!(e.message().contains("x-positive-int"));
}

#[test]
fn test_resolution_errors_carry_code_and_message() {
    let b = binding("x-organization-id", true, Parser::Text);
    let e = match Required::from_header_map(&header_map(&[]), &b) {
        Err(e) => e,
        Ok(_) => panic!("expected a missing-header failure"),
    };
    assert_eq!(e.code(), "missing_header");
    assert!(e.message().contains("x-organization-id"));

    let m = header_map(&[("x-organization-id", "org-日本語-123")]);
    let e = match Required::from_header_map(&m, &b) {
        Err(e) => e,
        Ok(_) => panic!("expected an invalid-value failure"),
    };
    assert_eq!(e.code(), "invalid_header_value");
    assert!(e.message().contains("x-organization-id"));

    let b = binding("x-positive-int", true, Parser::Uint);
    let m = header_map(&[("x-positive-int", "not-a-number")]);
    let e = match Required::from_header_map(&m, &b) {
        Err(e) => e,
        Ok(_) => panic!("expected a parse failure"),
    };
    assert_eq!(e.code(), "header_parse_error");
    assert!(e.message().contains("x-positive-int"));
}

// ============================================================================
// WRAPPER TYPES
// ============================================================================

#[test]
fn test_required_wrapper_extraction() {
    let b = binding("x-positive-int", true, Parser::Uint);
    let m = header_map(&[("x-positive-int", "42")]);
    let r = Required::from_header_map(&m, &b).unwrap();
    assert_eq!(*r.get(), Value::Uint(42));
    assert_eq!(r.into_inner(), Value::Uint(42));
}

#[test]
fn test_required_set() {
    let mut r = Required(42_u64);
    assert_eq!(*r.get(), 42);
    r.set(100);
    assert_eq!(r.into_inner(), 100);
}

#[test]
fn test_optional_wrapper_extraction_some() {
    let b = binding("x-positive-int", false, Parser::Uint);
    let m = header_map(&[("x-positive-int", "42")]);
    let o = Optional::from_header_map(&m, &b, OptionalPolicy::Strict).unwrap();
    assert_eq!(*o.get(), Some(Value::Uint(42)));
}

#[test]
fn test_optional_wrapper_extraction_none() {
    let b = binding("x-positive-int", false, Parser::Uint);
    let o = Optional::from_header_map(&header_map(&[]), &b, OptionalPolicy::Strict).unwrap();
    assert_eq!(o.into_inner(), None);
}

#[test]
fn test_optional_set() {
    let mut o = Optional(Some(42_u64));
    assert_eq!(*o.get(), Some(42));
    o.set(Some(100));
    assert_eq!(o.into_inner(), Some(100));
    let mut o = Optional(Some(1_u64));
    o.set(None);
    assert_eq!(o.into_inner(), None);
}

// ============================================================================
// DECODE BOUNDARY: WHICH BYTES COUNT AS PRINTABLE TEXT
// ============================================================================

#[test]
fn test_tab_and_space_decode_but_high_byte_does_not() {
    let b = binding("x-user-id", true, Parser::Text);

    let mut m = http::HeaderMap::new();
    let name = http::header::HeaderName::from_bytes(b"x-user-id").unwrap();
    m.insert(&name, http::HeaderValue::from_bytes(b"a\tb c").unwrap());
    assert_eq!(
        axum_required_headers::resolve::resolve_required(&m, &b).unwrap(),
        Value::Text("a\tb c".to_string())
    );

    // a byte past the ASCII range is a valid header byte but not printable text
    let mut m = http::HeaderMap::new();
    m.insert(&name, http::HeaderValue::from_bytes(&[b'a', 0x80]).unwrap());
    let r = axum_required_headers::resolve::resolve_required(&m, &b);
    assert!(matches!(r, Err(HeaderError::InvalidValue(n)) if n == "x-user-id"));
}
