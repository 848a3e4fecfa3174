//! The two failure families of the engine: build-time configuration errors
//! and traffic-time validation failures, plus the operational gaps that are
//! distinct from both (no route, method not allowed, no schema for a status
//! code).

use vstd::prelude::*;
use crate::strutil::spec_decimal;
use crate::strutil::u16_to_string;
use vstd::string::StringExecFns;

verus! {

/// Everything a build or a validation call can fail with.
#[derive(Debug, Clone)]
pub enum ValidationError {
    /// Traffic-time drift: the joined messages of the classified findings.
    ValidationFailed(String),
    /// A required request body was absent.
    RequestBodyMissing,
    /// No response schema is defined for the observed status code: a
    /// contract-authoring gap, not traffic drift.
    NoSchemaForStatusCode(u16),
    /// A build-time configuration error, with context naming the defect.
    SchemaCompilationError(String),
    /// No registered route pattern matches the looked-up path.
    RouteNotFound(String),
    /// A route pattern matches, but has no entry for the method.
    MethodNotAllowed(String),
}

impl ValidationError {
    /// The human-readable rendering of an error.
    pub open spec fn spec_message(self) -> Seq<char> {
        match self {
            ValidationError::ValidationFailed(m) => "Validation failed: "@ + m@,
            ValidationError::RequestBodyMissing => "Request body is required but was not provided"@,
            ValidationError::NoSchemaForStatusCode(c) => "No schema defined for status code "@
                + spec_decimal(c as int),
            ValidationError::SchemaCompilationError(m) => "Failed to compile JSON schema: "@ + m@,
            ValidationError::RouteNotFound(m) => m@,
            ValidationError::MethodNotAllowed(m) => m@,
        }
    }

    /// Renders the error for reporting.
    pub fn message(&self) -> (r: String)
        ensures
            r@ == self.spec_message(),
    {
        match self {
            ValidationError::ValidationFailed(m) => {
                let mut s = String::new();
                s.append("Validation failed: ");
                s.append(m.as_str());
                s
            },
            ValidationError::RequestBodyMissing => {
                let mut s = String::new();
                s.append("Request body is required but was not provided");
                s
            },
            ValidationError::NoSchemaForStatusCode(c) => {
                let mut s = String::new();
                s.append("No schema defined for status code ");
                let digits = u16_to_string(*c);
                s.append(digits.as_str());
                s
            },
            ValidationError::SchemaCompilationError(m) => {
                let mut s = String::new();
                s.append("Failed to compile JSON schema: ");
                s.append(m.as_str());
                s
            },
            ValidationError::RouteNotFound(m) => m.clone(),
            ValidationError::MethodNotAllowed(m) => m.clone(),
        }
    }
}

} // verus!
