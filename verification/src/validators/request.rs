//! Validation of one operation's request body: presence-or-absence against
//! the required flag, then structure against the compiled schema.

use vstd::prelude::*;
use crate::classified::{spec_classified_outcome, check_classified, DriftLocation, LocationStyle};
use crate::drift_types::{DriftType, ValidationContext};
use crate::error::ValidationError;
use crate::schema::{
    accepts, build_validator, opt_value, registry_root, schema_accepts, schema_compiles,
    schema_findings, findings_of, CompiledSchema, SchemaRegistry,
};
use crate::validation_helpers::{format_drift_error, spec_format_drift_error};

verus! {

/// The message reported when a required request body is absent.
pub open spec fn spec_missing_body_message() -> Seq<char> {
    spec_format_drift_error(
        DriftType::RequestBodyMissingRequired,
        "body"@,
        "Request body is required but missing"@,
    )
}

/// Validator for one operation's request body. A body whose contract
/// declares no JSON schema (its content is of another media type) carries no
/// compiled schema, and a present body is then never structurally checked.
pub struct RequestBodyValidator {
    schema: Option<CompiledSchema>,
    required: bool,
}

impl RequestBodyValidator {
    /// The compiled schema, if the contract declares one for JSON content.
    pub closed spec fn spec_schema(self) -> Option<CompiledSchema> {
        self.schema
    }

    /// Whether the body must be present.
    pub closed spec fn spec_required(self) -> bool {
        self.required
    }

    /// Compiles the validator for a request body with a JSON schema.
    pub fn new(
        schema_value: &serde_json::Value,
        required: bool,
        registry: &SchemaRegistry,
    ) -> (r: Result<Self, ValidationError>)
        ensures
            r is Ok <==> schema_compiles(*schema_value, registry_root(*registry)),
            r matches Ok(b) ==> (b.spec_schema() matches Some(cs) && b.spec_required() == required
                && (forall|val: serde_json::Value| #[trigger]
                accepts(cs, val) == schema_accepts(*schema_value, registry_root(*registry), val))
                && (forall|val: serde_json::Value| #[trigger]
                findings_of(cs, val) == schema_findings(
                    *schema_value,
                    registry_root(*registry),
                    val,
                ))),
            r matches Err(e) ==> e is SchemaCompilationError,
    {
        match build_validator(schema_value, registry, "request body") {
            Ok(schema) => Ok(RequestBodyValidator { schema: Some(schema), required }),
            Err(e) => Err(e),
        }
    }

    /// A validator for a request body whose contract declares no JSON
    /// schema: only presence is checked.
    pub fn without_schema(required: bool) -> (r: Self)
        ensures
            r.spec_required() == required,
            r.spec_schema() is None,
    {
        RequestBodyValidator { schema: None, required }
    }

    /// The outcome of validating a body: `None` for a pass, else the
    /// failure's message. An absent body fails exactly when the body is
    /// required, with the one missing-required message and no structural
    /// check; a present body is checked against the schema, if there is one.
    pub open spec fn spec_outcome(self, body: Option<serde_json::Value>) -> Option<Seq<char>> {
        match body {
            None => if self.spec_required() {
                Some(spec_missing_body_message())
            } else {
                None
            },
            Some(v) => match self.spec_schema() {
                Some(cs) => spec_classified_outcome(
                    cs,
                    v,
                    ValidationContext::RequestBody,
                    LocationStyle::BodyPrefixed("body"@),
                ),
                None => None,
            },
        }
    }

    /// Validates a request body. An absent required body yields exactly one
    /// missing-required finding; a present body is structurally checked and
    /// its findings classified, and a body every one of whose findings falls
    /// outside the drift taxonomy passes.
    pub fn validate(&self, body: Option<&serde_json::Value>) -> (r: Result<(), ValidationError>)
        ensures
            r is Ok <==> self.spec_outcome(opt_value(body)) is None,
            r matches Err(e) ==> (e matches ValidationError::ValidationFailed(m) && Some(m@)
                == self.spec_outcome(opt_value(body))),
            body matches Some(v) ==> (self.spec_schema() matches Some(cs) ==> (accepts(cs, *v)
                ==> r is Ok)),
    {
        match body {
            None => {
                if self.required {
                    let msg = format_drift_error(
                        DriftType::RequestBodyMissingRequired,
                        "body",
                        "Request body is required but missing",
                    );
                    Err(ValidationError::ValidationFailed(msg))
                } else {
                    Ok(())
                }
            },
            Some(value) => {
                match &self.schema {
                    Some(cs) => {
                        match check_classified(
                            cs,
                            value,
                            ValidationContext::RequestBody,
                            &DriftLocation::BodyPrefixed("body"),
                        ) {
                            None => Ok(()),
                            Some(m) => Err(ValidationError::ValidationFailed(m)),
                        }
                    },
                    None => Ok(()),
                }
            },
        }
    }
}

} // verus!
