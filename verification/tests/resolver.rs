use drift_monitor::model::{
    ComponentsModel, ContractDoc, ParameterFormat, ParameterLocation, ParameterModel, RefOr,
};
use drift_monitor::{resolve_parameter, ValidationError};

fn value(text: &str) -> serde_json::Value {
    serde_json::from_str(text).unwrap()
}

fn limit_parameter() -> ParameterModel {
    ParameterModel {
        name: "limit".to_string(),
        location: ParameterLocation::Query,
        required: false,
        format: ParameterFormat::Schema(value(r#"{"type": "integer"}"#)),
    }
}

fn doc_with_parameter(entry: RefOr<ParameterModel>) -> ContractDoc {
    ContractDoc {
        paths: Vec::new(),
        components: Some(ComponentsModel {
            parameters: vec![("PageLimit".to_string(), entry)],
            request_bodies: Vec::new(),
            responses: Vec::new(),
        }),
        components_json: None,
    }
}

fn compilation_message(r: Result<&ParameterModel, ValidationError>) -> String {
    let err = match r {
        Err(e) => e,
        Ok(_) => panic!("expected a compilation error"),
    };
    match err {
        ValidationError::SchemaCompilationError(m) => m,
        other => panic!("expected a compilation error, got {:?}", other),
    }
}

#[test]
fn test_inline_entry_resolves_to_itself() {
    let doc = doc_with_parameter(RefOr::Inline(limit_parameter()));
    let entry = RefOr::Inline(limit_parameter());
    let p = resolve_parameter(&entry, &doc).unwrap();
    assert_eq!(p.name, "limit");
}

#[test]
fn test_reference_resolves_through_components() {
    let doc = doc_with_parameter(RefOr::Inline(limit_parameter()));
    let entry: RefOr<ParameterModel> =
        RefOr::Reference("#/components/parameters/PageLimit".to_string());
    let p = resolve_parameter(&entry, &doc).unwrap();
    assert_eq!(p.name, "limit");
    assert!(!p.required);
}

#[test]
fn test_wrong_prefix_is_rejected() {
    let doc = doc_with_parameter(RefOr::Inline(limit_parameter()));
    let entry: RefOr<ParameterModel> =
        RefOr::Reference("#/components/schemas/PageLimit".to_string());
    let msg = compilation_message(resolve_parameter(&entry, &doc));
    assert_eq!(
        msg,
        "Invalid reference: #/components/schemas/PageLimit. \
         Expected prefix: #/components/parameters/"
    );
}

#[test]
fn test_unknown_name_is_not_found() {
    let doc = doc_with_parameter(RefOr::Inline(limit_parameter()));
    let entry: RefOr<ParameterModel> =
        RefOr::Reference("#/components/parameters/Missing".to_string());
    let msg = compilation_message(resolve_parameter(&entry, &doc));
    assert_eq!(msg, "Reference not found: #/components/parameters/Missing");
}

#[test]
fn test_no_components_section_is_not_found() {
    let doc = ContractDoc { paths: Vec::new(), components: None, components_json: None };
    let entry: RefOr<ParameterModel> =
        RefOr::Reference("#/components/parameters/PageLimit".to_string());
    let msg = compilation_message(resolve_parameter(&entry, &doc));
    assert_eq!(msg, "Reference not found: #/components/parameters/PageLimit");
}

#[test]
fn test_resolution_is_one_hop_only() {
    // the named definition is itself a reference: resolution does not chase it
    let doc = doc_with_parameter(RefOr::Reference(
        "#/components/parameters/Other".to_string(),
    ));
    let entry: RefOr<ParameterModel> =
        RefOr::Reference("#/components/parameters/PageLimit".to_string());
    let msg = compilation_message(resolve_parameter(&entry, &doc));
    assert_eq!(msg, "Reference not found: #/components/parameters/PageLimit");
}
