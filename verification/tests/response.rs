use drift_monitor::{build_registry, ValidationError};
use drift_monitor::validators::ResponseValidator;

fn value(text: &str) -> serde_json::Value {
    serde_json::from_str(text).unwrap()
}

fn two_code_validator() -> ResponseValidator {
    let registry = build_registry(None).unwrap();
    let ok_schema = value(r#"{"type": "object", "required": ["id"], "properties": {"id": {"type": "integer"}}}"#);
    let err_schema = value(r#"{"type": "object", "required": ["error"], "properties": {"error": {"type": "string"}}}"#);
    let mut rv = ResponseValidator::new();
    rv.add_response(200, &ok_schema, &registry).unwrap();
    rv.add_response(404, &err_schema, &registry).unwrap();
    rv
}

#[test]
fn test_no_schema_for_status_code() {
    let rv = two_code_validator();
    let body = value(r#"{"whatever": true}"#);
    let err = rv.validate(500, Some(&body)).unwrap_err();
    assert!(matches!(err, ValidationError::NoSchemaForStatusCode(500)));
    assert_eq!(err.message(), "No schema defined for status code 500");
}

#[test]
fn test_absent_body_always_passes() {
    let rv = two_code_validator();
    assert!(rv.validate(200, None).is_ok());
    assert!(rv.validate(404, None).is_ok());
    // even when no schema is selected for the status code
    assert!(rv.validate(500, None).is_ok());
}

#[test]
fn test_exact_code_validation() {
    let rv = two_code_validator();
    let good = value(r#"{"id": 7}"#);
    assert!(rv.validate(200, Some(&good)).is_ok());
    let bad = value(r#"{"id": "seven"}"#);
    let err = rv.validate(200, Some(&bad)).unwrap_err();
    match err {
        ValidationError::ValidationFailed(m) => {
            assert!(m.contains("RESPONSE_BODY_TYPE_MISMATCH"), "got: {}", m);
        }
        other => panic!("expected a validation failure, got {:?}", other),
    }
}

#[test]
fn test_default_schema_fallback() {
    let registry = build_registry(None).unwrap();
    let default_schema = value(r#"{"type": "object", "required": ["error"], "properties": {"error": {"type": "string"}}}"#);
    let mut rv = two_code_validator();
    rv.set_default(&default_schema, &registry).unwrap();
    let good = value(r#"{"error": "boom"}"#);
    assert!(rv.validate(500, Some(&good)).is_ok());
    let bad = value(r#"{"unexpected": 1}"#);
    let err = rv.validate(500, Some(&bad)).unwrap_err();
    match err {
        ValidationError::ValidationFailed(m) => {
            assert!(m.contains("RESPONSE_BODY_MISSING_REQUIRED"), "got: {}", m);
        }
        other => panic!("expected a validation failure, got {:?}", other),
    }
}

#[test]
fn test_exact_match_beats_default() {
    let registry = build_registry(None).unwrap();
    let default_schema = value(r#"{"type": "string"}"#);
    let mut rv = two_code_validator();
    rv.set_default(&default_schema, &registry).unwrap();
    // 200 selects the exact schema, not the default: an integer id passes
    let good = value(r#"{"id": 7}"#);
    assert!(rv.validate(200, Some(&good)).is_ok());
}
