use backend::errors::APIError;
use backend::json::{decimal_i32, decimal_u64, decimal_usize, json_quote};

#[test]
fn error_statuses_and_bodies() {
    assert_eq!(APIError::Unauthorized.status_code(), 401);
    assert_eq!(APIError::Unauthorized.message(), "Unauthorized");
    assert_eq!(APIError::NotFound.status_code(), 404);
    assert_eq!(APIError::NotFound.message(), "Page not found");
    assert_eq!(APIError::InternalServerError.status_code(), 500);
    assert_eq!(APIError::InternalServerError.message(), "Internal server error");
    assert_eq!(APIError::Conflict.status_code(), 409);
    assert_eq!(APIError::Conflict.message(), "Already exists");
}

#[test]
fn decimal_notation() {
    assert_eq!(decimal_u64(0), "0");
    assert_eq!(decimal_u64(9), "9");
    assert_eq!(decimal_u64(10), "10");
    assert_eq!(decimal_u64(18446744073709551615), "18446744073709551615");
    assert_eq!(decimal_i32(-2147483648), "-2147483648");
    assert_eq!(decimal_i32(2147483647), "2147483647");
    assert_eq!(decimal_i32(-7), "-7");
    assert_eq!(decimal_usize(604800), "604800");
    for n in [-1000i32, -1, 0, 1, 99, 100, 12345] {
        assert_eq!(decimal_i32(n), n.to_string());
    }
}

#[test]
fn json_string_literals() {
    assert_eq!(json_quote("hello"), "\"hello\"");
    assert_eq!(json_quote("a\"b\\c\nd"), "\"a\\\"b\\\\c\\nd\"");
    assert_eq!(json_quote(""), "\"\"");
    assert_eq!(json_quote("héllo"), "\"héllo\"");
    assert_eq!(json_quote("\u{1}"), "\"\\u0001\"");
    assert_eq!(json_quote("\u{1f}\u{8}\u{c}\t\r\u{7f}/"), "\"\\u001f\\b\\f\\t\\r\u{7f}/\"");
}
