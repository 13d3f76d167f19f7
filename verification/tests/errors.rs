use figshare_rs::access::response_location;
use figshare_rs::error::{decode_http_error, parse_field_errors, parse_json_error, trimmed_body, FigshareError};
use figshare_rs::json::JsonValue;

fn to_json(value: serde_json::Value) -> JsonValue {
    match value {
        serde_json::Value::Null => JsonValue::Null,
        serde_json::Value::Bool(b) => JsonValue::Bool(b),
        serde_json::Value::Number(n) => JsonValue::Number(n.to_string()),
        serde_json::Value::String(s) => JsonValue::String(s),
        serde_json::Value::Array(items) => JsonValue::Array(items.into_iter().map(to_json).collect()),
        serde_json::Value::Object(map) => {
            JsonValue::Object(map.into_iter().map(|(k, v)| (k, to_json(v))).collect())
        }
    }
}

fn decode(status: u16, content_type: Option<&str>, body: &[u8]) -> FigshareError {
    decode_http_error(status, content_type, body)
}

#[test]
fn parses_json_error_bodies() {
    let error = decode(
        400,
        Some("application/json"),
        br#"{"message":"bad metadata","code":"ValidationFailed","data":{"title":"required"}}"#,
    );

    match error {
        FigshareError::Http { message, code, field_errors, .. } => {
            assert_eq!(message.as_deref(), Some("bad metadata"));
            assert_eq!(code.as_deref(), Some("ValidationFailed"));
            assert_eq!(field_errors.len(), 1);
            assert_eq!(field_errors[0].field.as_deref(), Some("title"));
        }
        other => panic!("unexpected error: {other:?}"),
    }
}

#[test]
fn parses_plaintext_error_bodies() {
    let error = decode(500, Some("text/plain"), b"upstream exploded\nstack trace omitted");

    match error {
        FigshareError::Http { message, .. } => {
            assert_eq!(message.as_deref(), Some("upstream exploded"));
        }
        other => panic!("unexpected error: {other:?}"),
    }
}

#[test]
fn parses_mixed_error_shapes() {
    let parsed = parse_json_error(br#"{"message":"bad","errors":["first",{"field":"x"}]}"#).unwrap();
    assert_eq!(parsed.0.as_deref(), Some("bad"));
    assert_eq!(parsed.2.len(), 2);

    let object_errors =
        parse_field_errors(&to_json(serde_json::from_str(r#"{"metadata.title": {"detail": "required"}}"#).unwrap()))
            .unwrap();
    assert_eq!(object_errors[0].field.as_deref(), Some("metadata.title"));
    assert_eq!(object_errors[0].message, r#"{"detail":"required"}"#);
}

#[test]
fn parses_non_json_and_empty_bodies() {
    let malformed = decode(400, Some("application/json"), br#"{"broken":"json""#);
    match malformed {
        FigshareError::Http { message, raw_body, .. } => {
            assert_eq!(message.as_deref(), Some(r#"{"broken":"json""#));
            assert_eq!(raw_body.as_deref(), Some(r#"{"broken":"json""#));
        }
        other => panic!("unexpected error: {other:?}"),
    }

    let empty = decode(502, Some("text/plain"), b"   ");
    match empty {
        FigshareError::Http { message, raw_body, .. } => {
            assert_eq!(message, None);
            assert_eq!(raw_body, None);
        }
        other => panic!("unexpected error: {other:?}"),
    }
}

#[test]
fn trimmed_body_keeps_first_non_empty_line() {
    assert_eq!(trimmed_body(b"   \n  first line  \nsecond line"), Some("first line".into()));
}

#[test]
fn http_errors_keep_the_status_code() {
    match decode(422, None, b"nope") {
        FigshareError::Http { status, message, code, field_errors, raw_body } => {
            assert_eq!(status, 422);
            assert_eq!(message.as_deref(), Some("nope"));
            assert_eq!(code, None);
            assert!(field_errors.is_empty());
            assert_eq!(raw_body.as_deref(), Some("nope"));
        }
        other => panic!("unexpected error: {other:?}"),
    }
}

#[test]
fn json_body_is_recognized_by_its_first_byte() {
    let error = decode(400, Some("text/plain"), br#"  ["first problem"]"#);
    match error {
        FigshareError::Http { message, field_errors, .. } => {
            assert_eq!(message, None);
            assert!(field_errors.is_empty());
        }
        other => panic!("unexpected error: {other:?}"),
    }
}

#[test]
fn errors_member_takes_precedence_over_data() {
    let (_, _, errors) = parse_json_error(br#"{"errors":[{"message":"m","field":"f"}],"data":{"x":"y"}}"#).unwrap();
    assert_eq!(errors.len(), 1);
    assert_eq!(errors[0].field.as_deref(), Some("f"));
    assert_eq!(errors[0].message, "m");
}

#[test]
fn location_prefers_header_then_json_then_text() {
    assert_eq!(response_location(Some("/v2/x"), b"").unwrap(), "/v2/x");

    let body = br#"{"location":"https://api.figshare.com/v2/account/articles/5"}"#;
    assert_eq!(response_location(None, body).unwrap(), "https://api.figshare.com/v2/account/articles/5");

    let body = br#""https://api.figshare.com/v2/files/9""#;
    assert_eq!(response_location(None, body).unwrap(), "https://api.figshare.com/v2/files/9");

    assert_eq!(response_location(None, b"  /v2/plain  \n").unwrap(), "/v2/plain");
    assert_eq!(response_location(None, b" {\"id\": 4} ").unwrap(), "{\"id\": 4}");
    assert!(parse_json_error(b"not json").is_none());

    match response_location(None, b"") {
        Err(FigshareError::InvalidState(message)) => {
            assert_eq!(message, "successful Figshare response did not include a location")
        }
        other => panic!("unexpected result: {other:?}"),
    }
}
