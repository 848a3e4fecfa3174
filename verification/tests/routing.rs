use drift_monitor::{
    build_registry, ApiValidator, HttpMethod, OperationValidator, ValidationError,
};
use drift_monitor::validators::{ParametersValidator, RequestBodyValidator, ResponseValidator};

fn expect_err<T>(r: Result<T, ValidationError>) -> ValidationError {
    match r {
        Err(e) => e,
        Ok(_) => panic!("expected an error"),
    }
}


fn empty_operation() -> OperationValidator {
    OperationValidator::new(None, ResponseValidator::new(), ParametersValidator::new())
}

fn operation_with_body() -> OperationValidator {
    let registry = build_registry(None).unwrap();
    let schema: serde_json::Value = serde_json::from_str(r#"{"type": "string"}"#).unwrap();
    let body = RequestBodyValidator::new(&schema, true, &registry).unwrap();
    OperationValidator::new(Some(body), ResponseValidator::new(), ParametersValidator::new())
}

#[test]
fn test_method_parse() {
    assert_eq!(HttpMethod::parse("GET"), Some(HttpMethod::GET));
    assert_eq!(HttpMethod::parse("get"), Some(HttpMethod::GET));
    assert_eq!(HttpMethod::parse("gEt"), Some(HttpMethod::GET));
    assert_eq!(HttpMethod::parse("post"), Some(HttpMethod::POST));
    assert_eq!(HttpMethod::parse("put"), Some(HttpMethod::PUT));
    assert_eq!(HttpMethod::parse("delete"), Some(HttpMethod::DELETE));
    assert_eq!(HttpMethod::parse("patch"), Some(HttpMethod::PATCH));
    assert_eq!(HttpMethod::parse("head"), Some(HttpMethod::HEAD));
    assert_eq!(HttpMethod::parse("options"), Some(HttpMethod::OPTIONS));
    assert_eq!(HttpMethod::parse("trace"), Some(HttpMethod::TRACE));
    assert_eq!(HttpMethod::parse("FETCH"), None);
    assert_eq!(HttpMethod::parse(""), None);
}

#[test]
fn test_method_as_str() {
    assert_eq!(HttpMethod::GET.as_str(), "GET");
    assert_eq!(HttpMethod::OPTIONS.as_str(), "OPTIONS");
}

#[test]
fn test_lookup_returns_registered_operation() {
    let mut api = ApiValidator::new();
    api.add_path_operations("/users/{id}", vec![(HttpMethod::GET, empty_operation())]).unwrap();
    let (op, params) = api.find_operation("/users/42", HttpMethod::GET).unwrap();
    assert!(op.request_body.is_none());
    assert_eq!(params, vec![("id".to_string(), "42".to_string())]);
}

#[test]
fn test_lookup_extracts_multiple_params() {
    let mut api = ApiValidator::new();
    api.add_path_operations(
        "/orgs/{org}/repos/{repo}",
        vec![(HttpMethod::GET, empty_operation())],
    )
    .unwrap();
    let (_, params) = api.find_operation("/orgs/acme/repos/widgets", HttpMethod::GET).unwrap();
    assert_eq!(
        params,
        vec![("org".to_string(), "acme".to_string()), ("repo".to_string(), "widgets".to_string())]
    );
}

#[test]
fn test_no_route_error() {
    let mut api = ApiValidator::new();
    api.add_path_operations("/users/{id}", vec![(HttpMethod::GET, empty_operation())]).unwrap();
    let err = expect_err(api.find_operation("/nothing/here", HttpMethod::GET));
    assert!(matches!(err, ValidationError::RouteNotFound(_)));
    assert_eq!(err.message(), "No route found for path: /nothing/here");
}

#[test]
fn test_method_not_allowed_error() {
    let mut api = ApiValidator::new();
    api.add_path_operations("/users/{id}", vec![(HttpMethod::GET, empty_operation())]).unwrap();
    let err = expect_err(api.find_operation("/users/42", HttpMethod::POST));
    assert!(matches!(err, ValidationError::MethodNotAllowed(_)));
    assert_eq!(err.message(), "Method POST not allowed for path: /users/42");
}

#[test]
fn test_param_does_not_match_empty_piece() {
    let mut api = ApiValidator::new();
    api.add_path_operations("/users/{id}", vec![(HttpMethod::GET, empty_operation())]).unwrap();
    let err = expect_err(api.find_operation("/users/", HttpMethod::GET));
    assert!(matches!(err, ValidationError::RouteNotFound(_)));
}

#[test]
fn test_conflicting_pattern_rejected() {
    let mut api = ApiValidator::new();
    api.add_path_operations("/users/{id}", vec![(HttpMethod::GET, empty_operation())]).unwrap();
    let err = api
        .add_path_operations("/users/{name}", vec![(HttpMethod::GET, empty_operation())])
        .unwrap_err();
    assert!(matches!(err, ValidationError::SchemaCompilationError(_)));
    assert_eq!(
        err.message(),
        "Failed to compile JSON schema: Failed to add route '/users/{name}': another route claims the same paths"
    );
}

#[test]
fn test_duplicate_method_rejected() {
    let mut api = ApiValidator::new();
    let err = api
        .add_path_operations(
            "/users",
            vec![(HttpMethod::GET, empty_operation()), (HttpMethod::GET, empty_operation())],
        )
        .unwrap_err();
    assert!(matches!(err, ValidationError::SchemaCompilationError(_)));
    assert_eq!(
        err.message(),
        "Failed to compile JSON schema: Failed to add route '/users': a method is registered twice"
    );
}

#[test]
fn test_invalid_pattern_rejected() {
    let mut api = ApiValidator::new();
    let err = api
        .add_path_operations("/users/{", vec![(HttpMethod::GET, empty_operation())])
        .unwrap_err();
    assert!(matches!(err, ValidationError::SchemaCompilationError(_)));
    assert_eq!(
        err.message(),
        "Failed to compile JSON schema: Failed to add route '/users/{': invalid pattern"
    );
    let err = api
        .add_path_operations("/users/{}", vec![(HttpMethod::GET, empty_operation())])
        .unwrap_err();
    assert!(matches!(err, ValidationError::SchemaCompilationError(_)));
}

#[test]
fn test_static_route_beats_parameter_route() {
    let mut api = ApiValidator::new();
    api.add_path_operations("/users/{id}", vec![(HttpMethod::GET, empty_operation())]).unwrap();
    api.add_path_operations("/users/me", vec![(HttpMethod::GET, operation_with_body())]).unwrap();
    let (op, params) = api.find_operation("/users/me", HttpMethod::GET).unwrap();
    assert!(op.request_body.is_some());
    assert!(params.is_empty());
    let (op, params) = api.find_operation("/users/77", HttpMethod::GET).unwrap();
    assert!(op.request_body.is_none());
    assert_eq!(params, vec![("id".to_string(), "77".to_string())]);
}

#[test]
fn test_root_path_route() {
    let mut api = ApiValidator::new();
    api.add_path_operations("/", vec![(HttpMethod::GET, empty_operation())]).unwrap();
    let (_, params) = api.find_operation("/", HttpMethod::GET).unwrap();
    assert!(params.is_empty());
    let err = expect_err(api.find_operation("/x", HttpMethod::GET));
    assert!(matches!(err, ValidationError::RouteNotFound(_)));
}

#[test]
fn test_literal_segments_must_match_exactly() {
    let mut api = ApiValidator::new();
    api.add_path_operations("/users/{id}/posts", vec![(HttpMethod::GET, empty_operation())])
        .unwrap();
    assert!(api.find_operation("/users/7/posts", HttpMethod::GET).is_ok());
    let err = expect_err(api.find_operation("/users/7/comments", HttpMethod::GET));
    assert!(matches!(err, ValidationError::RouteNotFound(_)));
}
