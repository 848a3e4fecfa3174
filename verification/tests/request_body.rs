use drift_monitor::{build_registry, ValidationError};
use drift_monitor::validators::RequestBodyValidator;

fn user_schema() -> serde_json::Value {
    serde_json::from_str(
        r#"{
            "type": "object",
            "required": ["username", "email"],
            "properties": {
                "username": {"type": "string", "minLength": 3},
                "email": {"type": "string"},
                "age": {"type": "integer", "minimum": 18}
            }
        }"#,
    )
    .unwrap()
}

fn expect_err<T>(r: Result<T, ValidationError>) -> ValidationError {
    match r {
        Err(e) => e,
        Ok(_) => panic!("expected an error"),
    }
}

fn value(text: &str) -> serde_json::Value {
    serde_json::from_str(text).unwrap()
}

fn failure_message(r: Result<(), ValidationError>) -> String {
    match r.unwrap_err() {
        ValidationError::ValidationFailed(m) => m,
        other => panic!("expected a validation failure, got {:?}", other),
    }
}

#[test]
fn test_valid_body_passes() {
    let registry = build_registry(None).unwrap();
    let v = RequestBodyValidator::new(&user_schema(), true, &registry).unwrap();
    let body = value(r#"{"username": "johndoe", "email": "john@example.com", "age": 25}"#);
    assert!(v.validate(Some(&body)).is_ok());
}

#[test]
fn test_missing_required_property() {
    let registry = build_registry(None).unwrap();
    let v = RequestBodyValidator::new(&user_schema(), true, &registry).unwrap();
    let body = value(r#"{"username": "johndoe"}"#);
    let msg = failure_message(v.validate(Some(&body)));
    assert!(msg.starts_with("[REQUEST_BODY_MISSING_REQUIRED] at body - "));
    assert!(msg.contains("email"));
    assert!(!msg.contains("; "), "expected exactly one finding: {}", msg);
}

#[test]
fn test_wrong_property_type() {
    let registry = build_registry(None).unwrap();
    let v = RequestBodyValidator::new(&user_schema(), true, &registry).unwrap();
    let body = value(r#"{"username": "johndoe", "email": "x@x.com", "age": "no"}"#);
    let msg = failure_message(v.validate(Some(&body)));
    assert!(msg.starts_with("[REQUEST_BODY_TYPE_MISMATCH] at body/age - "), "got: {}", msg);
    assert!(!msg.contains("; "), "expected exactly one finding: {}", msg);
}

#[test]
fn test_absent_required_body() {
    let registry = build_registry(None).unwrap();
    let v = RequestBodyValidator::new(&user_schema(), true, &registry).unwrap();
    let msg = failure_message(v.validate(None));
    assert_eq!(
        msg,
        "[REQUEST_BODY_MISSING_REQUIRED] at body - Request body is required but missing"
    );
}

#[test]
fn test_absent_optional_body() {
    let registry = build_registry(None).unwrap();
    let v = RequestBodyValidator::new(&user_schema(), false, &registry).unwrap();
    assert!(v.validate(None).is_ok());
}

#[test]
fn test_unclassified_findings_pass() {
    // A structurally invalid value whose findings all fall outside the five
    // recognized kinds passes: drift-relevant classification, not raw
    // structural validity, decides pass/fail.
    let registry = build_registry(None).unwrap();
    let schema = value(r#"{"type": "string", "minLength": 5}"#);
    let v = RequestBodyValidator::new(&schema, true, &registry).unwrap();
    let body = value(r#""ab""#);
    assert!(v.validate(Some(&body)).is_ok());
}

#[test]
fn test_body_without_schema_checks_presence_only() {
    let v = RequestBodyValidator::without_schema(true);
    let msg = failure_message(v.validate(None));
    assert!(msg.starts_with("[REQUEST_BODY_MISSING_REQUIRED] at body - "));
    let body = value(r#"{"anything": 1}"#);
    assert!(v.validate(Some(&body)).is_ok());
}

#[test]
fn test_bad_schema_fails_compilation() {
    let registry = build_registry(None).unwrap();
    let schema = value(r#"{"type": 5}"#);
    let err = expect_err(RequestBodyValidator::new(&schema, true, &registry));
    assert!(matches!(err, ValidationError::SchemaCompilationError(_)));
}

#[test]
fn test_two_findings_are_joined() {
    let registry = build_registry(None).unwrap();
    let schema = value(
        r#"{
            "type": "object",
            "properties": {
                "alpha": {"type": "string"},
                "beta": {"type": "string"}
            }
        }"#,
    );
    let v = RequestBodyValidator::new(&schema, true, &registry).unwrap();
    let body = value(r#"{"alpha": 1, "beta": 2}"#);
    let msg = failure_message(v.validate(Some(&body)));
    let parts: Vec<&str> = msg.split("; ").collect();
    assert_eq!(parts.len(), 2, "expected two joined findings: {}", msg);
    assert!(parts[0].starts_with("[REQUEST_BODY_TYPE_MISMATCH] at body/alpha - "), "got: {}", msg);
    assert!(parts[1].starts_with("[REQUEST_BODY_TYPE_MISMATCH] at body/beta - "), "got: {}", msg);
}

#[test]
fn test_external_reference_fails_compilation() {
    // references that point outside the contract document are refused at
    // compile time instead of being fetched
    let registry = build_registry(None).unwrap();
    let schema = value(r#"{"$ref": "https://example.com/schema.json"}"#);
    let err = expect_err(RequestBodyValidator::new(&schema, true, &registry));
    assert!(matches!(err, ValidationError::SchemaCompilationError(_)));
}
