use drift_monitor::model::{
    ComponentsModel, ContractDoc, MediaTypeModel, OperationModel, ParameterFormat,
    ParameterLocation, ParameterModel, PathItemModel, RefOr, RequestBodyModel, ResponseModel,
    ResponsesModel, StatusCodeModel,
};
use drift_monitor::{build_api_validator, HttpMethod, ValidationError};

fn expect_err<T>(r: Result<T, ValidationError>) -> ValidationError {
    match r {
        Err(e) => e,
        Ok(_) => panic!("expected an error"),
    }
}


fn value(text: &str) -> serde_json::Value {
    serde_json::from_str(text).unwrap()
}

fn json_content(schema: serde_json::Value) -> Vec<(String, MediaTypeModel)> {
    vec![("application/json".to_string(), MediaTypeModel { schema: Some(schema) })]
}

fn user_operation() -> OperationModel {
    OperationModel {
        parameters: vec![RefOr::Inline(ParameterModel {
            name: "id".to_string(),
            location: ParameterLocation::Path,
            required: true,
            format: ParameterFormat::Schema(value(r#"{"type": "integer", "minimum": 1}"#)),
        })],
        request_body: Some(RefOr::Inline(RequestBodyModel {
            content: json_content(value(
                r#"{"type": "object", "required": ["name"], "properties": {"name": {"type": "string"}}}"#,
            )),
            required: true,
        })),
        responses: ResponsesModel {
            responses: vec![(
                StatusCodeModel::Code(200),
                RefOr::Inline(ResponseModel {
                    content: json_content(value(
                        r#"{"type": "object", "required": ["id"], "properties": {"id": {"type": "integer"}}}"#,
                    )),
                }),
            )],
            default: None,
        },
    }
}

fn single_path_doc(operation: OperationModel) -> ContractDoc {
    ContractDoc {
        paths: vec![(
            "/users/{id}".to_string(),
            RefOr::Inline(PathItemModel { operations: vec![("put".to_string(), operation)] }),
        )],
        components: None,
        components_json: None,
    }
}

#[test]
fn test_build_and_validate_end_to_end() {
    let api = build_api_validator(&single_path_doc(user_operation())).unwrap();
    let (op, params) = api.find_operation("/users/42", HttpMethod::PUT).unwrap();
    assert_eq!(params, vec![("id".to_string(), "42".to_string())]);

    let observed = vec![("id".to_string(), value("42"))];
    assert!(op.parameters.validate_path(&observed).is_ok());

    let body = value(r#"{"name": "widget"}"#);
    assert!(op.request_body.as_ref().unwrap().validate(Some(&body)).is_ok());
    let bad = value(r#"{}"#);
    assert!(op.request_body.as_ref().unwrap().validate(Some(&bad)).is_err());

    let response = value(r#"{"id": 42}"#);
    assert!(op.responses.validate(200, Some(&response)).is_ok());
    let err = expect_err(op.responses.validate(503, Some(&response)));
    assert!(matches!(err, ValidationError::NoSchemaForStatusCode(503)));
}

#[test]
fn test_unknown_method_fails_build() {
    let mut doc = single_path_doc(user_operation());
    match &mut doc.paths[0].1 {
        RefOr::Inline(item) => item.operations[0].0 = "fetch".to_string(),
        RefOr::Reference(_) => unreachable!(),
    }
    let err = expect_err(build_api_validator(&doc));
    match err {
        ValidationError::SchemaCompilationError(m) => {
            assert_eq!(m, "Unknown HTTP method: fetch");
        }
        other => panic!("expected a compilation error, got {:?}", other),
    }
}

#[test]
fn test_bad_schema_fails_build() {
    let mut op = user_operation();
    op.request_body = Some(RefOr::Inline(RequestBodyModel {
        content: json_content(value(r#"{"type": 5}"#)),
        required: true,
    }));
    let err = expect_err(build_api_validator(&single_path_doc(op)));
    match err {
        ValidationError::SchemaCompilationError(m) => {
            // the failure names the offending operation and path
            assert!(
                m.starts_with("Failed to build operation 'put' at path '/users/{id}': "),
                "got: {}",
                m
            );
            assert!(m.contains("request body"), "got: {}", m);
        }
        other => panic!("expected a compilation error, got {:?}", other),
    }
}

#[test]
fn test_path_reference_fails_build() {
    let doc = ContractDoc {
        paths: vec![(
            "/users".to_string(),
            RefOr::Reference("#/components/pathItems/Users".to_string()),
        )],
        components: None,
        components_json: None,
    };
    let err = expect_err(build_api_validator(&doc));
    match err {
        ValidationError::SchemaCompilationError(m) => {
            assert_eq!(m, "Path references are not supported: /users");
        }
        other => panic!("expected a compilation error, got {:?}", other),
    }
}

#[test]
fn test_content_based_parameter_fails_build() {
    let mut op = user_operation();
    op.parameters.push(RefOr::Inline(ParameterModel {
        name: "filter".to_string(),
        location: ParameterLocation::Query,
        required: false,
        format: ParameterFormat::Content,
    }));
    let err = expect_err(build_api_validator(&single_path_doc(op)));
    assert!(matches!(err, ValidationError::SchemaCompilationError(_)));
}

#[test]
fn test_cookie_parameter_is_dropped() {
    let mut op = user_operation();
    op.parameters.push(RefOr::Inline(ParameterModel {
        name: "session".to_string(),
        location: ParameterLocation::Cookie,
        required: true,
        // the format of a cookie parameter is never even inspected
        format: ParameterFormat::Content,
    }));
    let api = build_api_validator(&single_path_doc(op)).unwrap();
    let (op, _) = api.find_operation("/users/42", HttpMethod::PUT).unwrap();
    // the cookie parameter imposes nothing: no location validates it
    let observed: Vec<(String, serde_json::Value)> = Vec::new();
    assert!(op.parameters.validate_query(&observed).is_ok());
    assert!(op.parameters.validate_headers(&observed).is_ok());
}

#[test]
fn test_range_response_is_skipped() {
    let mut op = user_operation();
    op.responses.responses.push((
        StatusCodeModel::Range(5),
        RefOr::Reference("#/components/responses/Broken".to_string()),
    ));
    // the range entry is skipped before its (broken) reference is resolved
    let api = build_api_validator(&single_path_doc(op)).unwrap();
    let (op, _) = api.find_operation("/users/42", HttpMethod::PUT).unwrap();
    let body = value(r#"{"id": 1}"#);
    assert!(op.responses.validate(200, Some(&body)).is_ok());
}

#[test]
fn test_operation_level_reference_resolution() {
    let mut op = user_operation();
    op.request_body = Some(RefOr::Reference("#/components/requestBodies/CreateUser".to_string()));
    let mut doc = single_path_doc(op);
    doc.components = Some(ComponentsModel {
        parameters: Vec::new(),
        request_bodies: vec![(
            "CreateUser".to_string(),
            RefOr::Inline(RequestBodyModel {
                content: json_content(value(
                    r#"{"type": "object", "required": ["name"], "properties": {"name": {"type": "string"}}}"#,
                )),
                required: true,
            }),
        )],
        responses: Vec::new(),
    });
    let api = build_api_validator(&doc).unwrap();
    let (op, _) = api.find_operation("/users/7", HttpMethod::PUT).unwrap();
    let err = op.request_body.as_ref().unwrap().validate(None).unwrap_err();
    assert!(matches!(err, ValidationError::ValidationFailed(_)));
}

#[test]
fn test_unresolved_reference_fails_build() {
    let mut op = user_operation();
    op.request_body = Some(RefOr::Reference("#/components/requestBodies/Missing".to_string()));
    let err = expect_err(build_api_validator(&single_path_doc(op)));
    assert!(matches!(err, ValidationError::SchemaCompilationError(_)));
}

#[test]
fn test_shared_schema_registry_resolves_internal_refs() {
    // a schema that points into the shared components/schemas section
    // compiles against the registry and validates accordingly
    let mut op = user_operation();
    op.request_body = Some(RefOr::Inline(RequestBodyModel {
        content: json_content(value(r##"{"$ref": "#/components/schemas/User"}"##)),
        required: true,
    }));
    let mut doc = single_path_doc(op);
    doc.components_json = Some(value(
        r#"{"schemas": {"User": {"type": "object", "required": ["name"], "properties": {"name": {"type": "string"}}}}}"#,
    ));
    let api = build_api_validator(&doc).unwrap();
    let (op, _) = api.find_operation("/users/7", HttpMethod::PUT).unwrap();
    let good = value(r#"{"name": "alice"}"#);
    assert!(op.request_body.as_ref().unwrap().validate(Some(&good)).is_ok());
    let bad = value(r#"{"nickname": "al"}"#);
    let err = op.request_body.as_ref().unwrap().validate(Some(&bad)).unwrap_err();
    match err {
        ValidationError::ValidationFailed(m) => {
            assert!(m.contains("REQUEST_BODY_MISSING_REQUIRED"), "got: {}", m);
        }
        other => panic!("expected a validation failure, got {:?}", other),
    }
}

#[test]
fn test_non_json_body_compiles_as_no_schema() {
    let mut op = user_operation();
    op.request_body = Some(RefOr::Inline(RequestBodyModel {
        content: vec![(
            "text/plain".to_string(),
            MediaTypeModel { schema: Some(value(r#"{"type": "string"}"#)) },
        )],
        required: false,
    }));
    let api = build_api_validator(&single_path_doc(op)).unwrap();
    let (op, _) = api.find_operation("/users/7", HttpMethod::PUT).unwrap();
    // a present body is never structurally checked when no JSON schema is declared
    let anything = value(r#"[1, 2, 3]"#);
    assert!(op.request_body.as_ref().unwrap().validate(Some(&anything)).is_ok());
}

#[test]
fn test_empty_contract_builds() {
    let doc = ContractDoc { paths: Vec::new(), components: None, components_json: None };
    let api = build_api_validator(&doc).unwrap();
    let err = expect_err(api.find_operation("/anything", HttpMethod::GET));
    assert!(matches!(err, ValidationError::RouteNotFound(_)));
}
