use drift_monitor::{build_registry, ValidationError};
use drift_monitor::validators::{ParameterValidator, ParametersValidator};

fn value(text: &str) -> serde_json::Value {
    serde_json::from_str(text).unwrap()
}

fn failure_message(r: Result<(), ValidationError>) -> String {
    match r.unwrap_err() {
        ValidationError::ValidationFailed(m) => m,
        other => panic!("expected a validation failure, got {:?}", other),
    }
}

fn id_validator() -> ParametersValidator {
    let registry = build_registry(None).unwrap();
    let schema = value(r#"{"type": "integer", "minimum": 1}"#);
    let p = ParameterValidator::new("id".to_string(), true, &schema, &registry).unwrap();
    let mut pv = ParametersValidator::new();
    pv.add_path_parameter(p);
    pv
}

#[test]
fn test_missing_required_path_parameter() {
    let pv = id_validator();
    let observed: Vec<(String, serde_json::Value)> = Vec::new();
    let msg = failure_message(pv.validate_path(&observed));
    assert_eq!(msg, "[PARAMETER_MISSING_REQUIRED] at id - Required parameter 'id' is missing");
}

#[test]
fn test_minimum_violation_is_not_classified_as_drift() {
    // -5 violates the schema's minimum bound, but bound violations are
    // outside the five recognized finding kinds, so no drift is reported and
    // the call passes.
    let pv = id_validator();
    let observed = vec![("id".to_string(), value("-5"))];
    assert!(pv.validate_path(&observed).is_ok());
}

#[test]
fn test_wrong_parameter_type() {
    let pv = id_validator();
    let observed = vec![("id".to_string(), value(r#""abc""#))];
    let msg = failure_message(pv.validate_path(&observed));
    assert!(msg.starts_with("[PARAMETER_TYPE_MISMATCH] at id - "), "got: {}", msg);
}

#[test]
fn test_first_missing_required_short_circuits() {
    let registry = build_registry(None).unwrap();
    let schema = value(r#"{"type": "string"}"#);
    let a = ParameterValidator::new("alpha".to_string(), true, &schema, &registry).unwrap();
    let b = ParameterValidator::new("beta".to_string(), true, &schema, &registry).unwrap();
    let mut pv = ParametersValidator::new();
    pv.add_query_parameter(a);
    pv.add_query_parameter(b);
    let observed: Vec<(String, serde_json::Value)> = Vec::new();
    let msg = failure_message(pv.validate_query(&observed));
    assert!(msg.contains("'alpha'"));
    assert!(!msg.contains("'beta'"), "only the first missing parameter is reported: {}", msg);
}

#[test]
fn test_undeclared_observed_parameters_are_ignored() {
    let pv = id_validator();
    let observed = vec![("id".to_string(), value("3")), ("extra".to_string(), value("true"))];
    assert!(pv.validate_path(&observed).is_ok());
}

#[test]
fn test_absent_optional_parameter_is_skipped() {
    let registry = build_registry(None).unwrap();
    let schema = value(r#"{"type": "string"}"#);
    let p = ParameterValidator::new("q".to_string(), false, &schema, &registry).unwrap();
    let mut pv = ParametersValidator::new();
    pv.add_query_parameter(p);
    let observed: Vec<(String, serde_json::Value)> = Vec::new();
    assert!(pv.validate_query(&observed).is_ok());
}

#[test]
fn test_header_parameters_are_validated() {
    let registry = build_registry(None).unwrap();
    let schema = value(r#"{"type": "string"}"#);
    let p = ParameterValidator::new("x-trace".to_string(), true, &schema, &registry).unwrap();
    let mut pv = ParametersValidator::new();
    pv.add_header_parameter(p);
    let observed = vec![("x-trace".to_string(), value(r#""abc123""#))];
    assert!(pv.validate_headers(&observed).is_ok());
    let bad = vec![("x-trace".to_string(), value("17"))];
    let msg = failure_message(pv.validate_headers(&bad));
    assert!(msg.contains("PARAMETER_TYPE_MISMATCH"), "got: {}", msg);
}

#[test]
fn test_parameter_accessors() {
    let registry = build_registry(None).unwrap();
    let schema = value(r#"{"type": "string"}"#);
    let p = ParameterValidator::new("q".to_string(), true, &schema, &registry).unwrap();
    assert_eq!(p.name(), "q");
    assert!(p.is_required());
}
