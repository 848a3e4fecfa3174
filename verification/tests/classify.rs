use drift_monitor::{map_to_drift_type, DriftType, FindingKind, ValidationContext};
use drift_monitor::{format_drift_error, format_instance_location, ValidationError};

#[test]
fn test_classify_recognized_kinds() {
    let cases = [
        (
            FindingKind::TypeMismatch,
            ValidationContext::Parameter,
            DriftType::ParameterTypeMismatch,
        ),
        (
            FindingKind::TypeMismatch,
            ValidationContext::RequestBody,
            DriftType::RequestBodyTypeMismatch,
        ),
        (
            FindingKind::TypeMismatch,
            ValidationContext::ResponseBody,
            DriftType::ResponseBodyTypeMismatch,
        ),
        (
            FindingKind::MissingRequired,
            ValidationContext::Parameter,
            DriftType::ParameterMissingRequired,
        ),
        (
            FindingKind::MissingRequired,
            ValidationContext::RequestBody,
            DriftType::RequestBodyMissingRequired,
        ),
        (
            FindingKind::MissingRequired,
            ValidationContext::ResponseBody,
            DriftType::ResponseBodyMissingRequired,
        ),
        (
            FindingKind::EnumViolation,
            ValidationContext::Parameter,
            DriftType::ParameterEnumViolation,
        ),
        (
            FindingKind::EnumViolation,
            ValidationContext::RequestBody,
            DriftType::RequestBodyEnumViolation,
        ),
        (
            FindingKind::EnumViolation,
            ValidationContext::ResponseBody,
            DriftType::ResponseBodyEnumViolation,
        ),
        (
            FindingKind::OneOfNoMatch,
            ValidationContext::Parameter,
            DriftType::ParameterOneOfNoMatch,
        ),
        (
            FindingKind::OneOfNoMatch,
            ValidationContext::RequestBody,
            DriftType::RequestBodyOneOfNoMatch,
        ),
        (
            FindingKind::OneOfNoMatch,
            ValidationContext::ResponseBody,
            DriftType::ResponseBodyOneOfNoMatch,
        ),
        (
            FindingKind::AnyOfNoMatch,
            ValidationContext::Parameter,
            DriftType::ParameterAnyOfNoMatch,
        ),
        (
            FindingKind::AnyOfNoMatch,
            ValidationContext::RequestBody,
            DriftType::RequestBodyAnyOfNoMatch,
        ),
        (
            FindingKind::AnyOfNoMatch,
            ValidationContext::ResponseBody,
            DriftType::ResponseBodyAnyOfNoMatch,
        ),
    ];
    for (kind, context, expected) in cases {
        assert_eq!(map_to_drift_type(kind, context), Some(expected));
    }
}

#[test]
fn test_classify_unrecognized_kind_is_no_drift() {
    assert_eq!(map_to_drift_type(FindingKind::Other, ValidationContext::Parameter), None);
    assert_eq!(map_to_drift_type(FindingKind::Other, ValidationContext::RequestBody), None);
    assert_eq!(map_to_drift_type(FindingKind::Other, ValidationContext::ResponseBody), None);
}

#[test]
fn test_classify_deterministic() {
    for _ in 0..3 {
        assert_eq!(
            map_to_drift_type(FindingKind::EnumViolation, ValidationContext::RequestBody),
            Some(DriftType::RequestBodyEnumViolation)
        );
    }
}

#[test]
fn test_drift_type_names() {
    assert_eq!(DriftType::ParameterTypeMismatch.as_str(), "PARAMETER_TYPE_MISMATCH");
    assert_eq!(DriftType::RequestBodyMissingRequired.as_str(), "REQUEST_BODY_MISSING_REQUIRED");
    assert_eq!(DriftType::ResponseBodyAnyOfNoMatch.as_str(), "RESPONSE_BODY_ANYOF_NO_MATCH");
    assert_eq!(DriftType::ParameterOneOfNoMatch.as_str(), "PARAMETER_ONEOF_NO_MATCH");
}

#[test]
fn test_format_drift_error() {
    let s = format_drift_error(DriftType::RequestBodyTypeMismatch, "body/age", "wrong type");
    assert_eq!(s, "[REQUEST_BODY_TYPE_MISMATCH] at body/age - wrong type");
}

#[test]
fn test_format_instance_location() {
    assert_eq!(format_instance_location("", "body"), "body");
    assert_eq!(format_instance_location("/age", "body"), "body/age");
}

#[test]
fn test_error_messages() {
    assert_eq!(
        ValidationError::ValidationFailed("x".to_string()).message(),
        "Validation failed: x"
    );
    assert_eq!(
        ValidationError::RequestBodyMissing.message(),
        "Request body is required but was not provided"
    );
    assert_eq!(
        ValidationError::NoSchemaForStatusCode(404).message(),
        "No schema defined for status code 404"
    );
    assert_eq!(
        ValidationError::SchemaCompilationError("bad".to_string()).message(),
        "Failed to compile JSON schema: bad"
    );
}

#[test]
fn test_u16_to_string() {
    assert_eq!(drift_monitor::strutil::u16_to_string(0), "0");
    assert_eq!(drift_monitor::strutil::u16_to_string(7), "7");
    assert_eq!(drift_monitor::strutil::u16_to_string(204), "204");
    assert_eq!(drift_monitor::strutil::u16_to_string(65535), "65535");
}
