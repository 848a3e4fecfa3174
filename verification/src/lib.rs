pub mod api_validator;
pub mod builder;
pub mod classified;
pub mod drift_types;
pub mod model;
pub mod resolver;
pub mod route_match;
pub mod schema;
pub mod error;
pub mod strutil;
pub mod validation_helpers;
pub mod validators;

pub use api_validator::{ApiValidator, HttpMethod, OperationValidator};
pub use builder::build_api_validator;
pub use drift_types::{map_to_drift_type, DriftType, FindingKind, ValidationContext};
pub use error::ValidationError;
pub use resolver::{resolve_parameter, resolve_request_body, resolve_response};
pub use schema::{build_registry, build_validator, SchemaRegistry};
pub use validation_helpers::{format_drift_error, format_instance_location};
pub use validators::{
    ParameterValidator, ParametersValidator, RequestBodyValidator, ResponseValidator,
};
