use chroma_api::response::{classify, ApplicationError, StatusClass};
use chroma_api::text::decimal_text;

#[test]
fn not_found_becomes_an_application_error() {
    assert_eq!(classify(404), StatusClass::Failure);
    let error = ApplicationError::for_status(404, "not found".to_string());
    assert_eq!(error.code, 404);
    assert_eq!(error.reason, "Not Found");
    assert_eq!(error.body, "not found");
    assert_eq!(error.message(), "404 Not Found: not found");
}

#[test]
fn ok_is_a_success() {
    assert_eq!(classify(200), StatusClass::Success);
}

#[test]
fn success_range_is_200_to_299() {
    assert_eq!(classify(199), StatusClass::Failure);
    assert_eq!(classify(200), StatusClass::Success);
    assert_eq!(classify(204), StatusClass::Success);
    assert_eq!(classify(299), StatusClass::Success);
    assert_eq!(classify(300), StatusClass::Failure);
    assert_eq!(classify(500), StatusClass::Failure);
    assert_eq!(classify(0), StatusClass::Failure);
}

#[test]
fn code_without_phrase_is_unknown() {
    let error = ApplicationError::for_status(599, "boom".to_string());
    assert_eq!(error.reason, "Unknown");
    assert_eq!(error.message(), "599 Unknown: boom");
    let odd = ApplicationError::for_status(42, String::new());
    assert_eq!(odd.reason, "Unknown");
    assert_eq!(odd.message(), "42 Unknown: ");
}

#[test]
fn server_error_has_its_phrase() {
    let error = ApplicationError::for_status(500, "{\"error\":\"x\"}".to_string());
    assert_eq!(error.message(), "500 Internal Server Error: {\"error\":\"x\"}");
}

#[test]
fn error_from_given_reason() {
    let named = ApplicationError::new(418, Some("I'm a teapot".to_string()), "short".to_string());
    assert_eq!(named.message(), "418 I'm a teapot: short");
    let unnamed = ApplicationError::new(418, None, "short".to_string());
    assert_eq!(unnamed.reason, "Unknown");
    assert_eq!(unnamed.message(), "418 Unknown: short");
}

#[test]
fn decimal_digits() {
    assert_eq!(decimal_text(0), "0");
    assert_eq!(decimal_text(7), "7");
    assert_eq!(decimal_text(10), "10");
    assert_eq!(decimal_text(404), "404");
    assert_eq!(decimal_text(1000), "1000");
    assert_eq!(decimal_text(65535), "65535");
}
