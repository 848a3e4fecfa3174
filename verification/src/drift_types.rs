//! The drift classifier: projects a structural finding kind onto the drift
//! kind that belongs to the validation context the finding was raised in.

use vstd::prelude::*;

verus! {

/// The kinds of structural findings that the drift taxonomy recognizes.
/// Every other structural failure a schema check may report is carried as
/// `Other` and is never classified as drift.
#[derive(Clone, Copy, Debug, PartialEq, Eq, Structural)]
pub enum FindingKind {
    TypeMismatch,
    MissingRequired,
    EnumViolation,
    OneOfNoMatch,
    AnyOfNoMatch,
    Other,
}

/// Where a value was being validated when a finding was raised.
#[derive(Clone, Copy, Debug, PartialEq, Eq, Structural)]
pub enum ValidationContext {
    Parameter,
    RequestBody,
    ResponseBody,
}

/// The closed vocabulary of drift kinds: one triple of contexts for each of
/// the five recognized structural finding kinds.
#[derive(Clone, Copy, Debug, PartialEq, Eq, Structural)]
pub enum DriftType {
    ParameterTypeMismatch,
    RequestBodyTypeMismatch,
    ResponseBodyTypeMismatch,
    ParameterMissingRequired,
    RequestBodyMissingRequired,
    ResponseBodyMissingRequired,
    ParameterEnumViolation,
    RequestBodyEnumViolation,
    ResponseBodyEnumViolation,
    ParameterOneOfNoMatch,
    RequestBodyOneOfNoMatch,
    ResponseBodyOneOfNoMatch,
    ParameterAnyOfNoMatch,
    RequestBodyAnyOfNoMatch,
    ResponseBodyAnyOfNoMatch,
}

/// What `map_to_drift_type` returns: the drift kind for a recognized finding
/// kind in a given context, and `None` for any other finding kind.
pub open spec fn spec_drift_of(kind: FindingKind, context: ValidationContext) -> Option<DriftType> {
    match kind {
        FindingKind::TypeMismatch => Some(match context {
            ValidationContext::Parameter => DriftType::ParameterTypeMismatch,
            ValidationContext::RequestBody => DriftType::RequestBodyTypeMismatch,
            ValidationContext::ResponseBody => DriftType::ResponseBodyTypeMismatch,
        }),
        FindingKind::MissingRequired => Some(match context {
            ValidationContext::Parameter => DriftType::ParameterMissingRequired,
            ValidationContext::RequestBody => DriftType::RequestBodyMissingRequired,
            ValidationContext::ResponseBody => DriftType::ResponseBodyMissingRequired,
        }),
        FindingKind::EnumViolation => Some(match context {
            ValidationContext::Parameter => DriftType::ParameterEnumViolation,
            ValidationContext::RequestBody => DriftType::RequestBodyEnumViolation,
            ValidationContext::ResponseBody => DriftType::ResponseBodyEnumViolation,
        }),
        FindingKind::OneOfNoMatch => Some(match context {
            ValidationContext::Parameter => DriftType::ParameterOneOfNoMatch,
            ValidationContext::RequestBody => DriftType::RequestBodyOneOfNoMatch,
            ValidationContext::ResponseBody => DriftType::ResponseBodyOneOfNoMatch,
        }),
        FindingKind::AnyOfNoMatch => Some(match context {
            ValidationContext::Parameter => DriftType::ParameterAnyOfNoMatch,
            ValidationContext::RequestBody => DriftType::RequestBodyAnyOfNoMatch,
            ValidationContext::ResponseBody => DriftType::ResponseBodyAnyOfNoMatch,
        }),
        FindingKind::Other => None,
    }
}

/// Maps a structural finding kind to the drift kind of the given context.
/// Finding kinds outside the five recognized ones yield no drift kind.
pub fn map_to_drift_type(kind: FindingKind, context: ValidationContext) -> (r: Option<DriftType>)
    ensures
        r == spec_drift_of(kind, context),
{
    match kind {
        FindingKind::TypeMismatch => Some(match context {
            ValidationContext::Parameter => DriftType::ParameterTypeMismatch,
            ValidationContext::RequestBody => DriftType::RequestBodyTypeMismatch,
            ValidationContext::ResponseBody => DriftType::ResponseBodyTypeMismatch,
        }),
        FindingKind::MissingRequired => Some(match context {
            ValidationContext::Parameter => DriftType::ParameterMissingRequired,
            ValidationContext::RequestBody => DriftType::RequestBodyMissingRequired,
            ValidationContext::ResponseBody => DriftType::ResponseBodyMissingRequired,
        }),
        FindingKind::EnumViolation => Some(match context {
            ValidationContext::Parameter => DriftType::ParameterEnumViolation,
            ValidationContext::RequestBody => DriftType::RequestBodyEnumViolation,
            ValidationContext::ResponseBody => DriftType::ResponseBodyEnumViolation,
        }),
        FindingKind::OneOfNoMatch => Some(match context {
            ValidationContext::Parameter => DriftType::ParameterOneOfNoMatch,
            ValidationContext::RequestBody => DriftType::RequestBodyOneOfNoMatch,
            ValidationContext::ResponseBody => DriftType::ResponseBodyOneOfNoMatch,
        }),
        FindingKind::AnyOfNoMatch => Some(match context {
            ValidationContext::Parameter => DriftType::ParameterAnyOfNoMatch,
            ValidationContext::RequestBody => DriftType::RequestBodyAnyOfNoMatch,
            ValidationContext::ResponseBody => DriftType::ResponseBodyAnyOfNoMatch,
        }),
        FindingKind::Other => None,
    }
}

/// The context a drift kind belongs to.
pub open spec fn spec_drift_context(d: DriftType) -> ValidationContext {
    match d {
        DriftType::ParameterTypeMismatch => ValidationContext::Parameter,
        DriftType::ParameterMissingRequired => ValidationContext::Parameter,
        DriftType::ParameterEnumViolation => ValidationContext::Parameter,
        DriftType::ParameterOneOfNoMatch => ValidationContext::Parameter,
        DriftType::ParameterAnyOfNoMatch => ValidationContext::Parameter,
        DriftType::RequestBodyTypeMismatch => ValidationContext::RequestBody,
        DriftType::RequestBodyMissingRequired => ValidationContext::RequestBody,
        DriftType::RequestBodyEnumViolation => ValidationContext::RequestBody,
        DriftType::RequestBodyOneOfNoMatch => ValidationContext::RequestBody,
        DriftType::RequestBodyAnyOfNoMatch => ValidationContext::RequestBody,
        DriftType::ResponseBodyTypeMismatch => ValidationContext::ResponseBody,
        DriftType::ResponseBodyMissingRequired => ValidationContext::ResponseBody,
        DriftType::ResponseBodyEnumViolation => ValidationContext::ResponseBody,
        DriftType::ResponseBodyOneOfNoMatch => ValidationContext::ResponseBody,
        DriftType::ResponseBodyAnyOfNoMatch => ValidationContext::ResponseBody,
    }
}

/// Classification is a function of the finding kind and the context alone:
/// two classifications of equal pairs agree.
pub proof fn lemma_classification_deterministic(
    k1: FindingKind,
    c1: ValidationContext,
    k2: FindingKind,
    c2: ValidationContext,
)
    requires
        k1 == k2,
        c1 == c2,
    ensures
        spec_drift_of(k1, c1) == spec_drift_of(k2, c2),
{
}

/// A classified finding never escapes its context: the drift kind produced
/// for a context always belongs to that context.
pub proof fn lemma_drift_kind_matches_context(kind: FindingKind, context: ValidationContext)
    ensures
        spec_drift_of(kind, context) matches Some(d) ==> spec_drift_context(d) == context,
{
}

impl DriftType {
    /// The stable name of a drift kind.
    pub open spec fn spec_name(self) -> Seq<char> {
        match self {
            DriftType::ParameterTypeMismatch => "PARAMETER_TYPE_MISMATCH"@,
            DriftType::RequestBodyTypeMismatch => "REQUEST_BODY_TYPE_MISMATCH"@,
            DriftType::ResponseBodyTypeMismatch => "RESPONSE_BODY_TYPE_MISMATCH"@,
            DriftType::ParameterMissingRequired => "PARAMETER_MISSING_REQUIRED"@,
            DriftType::RequestBodyMissingRequired => "REQUEST_BODY_MISSING_REQUIRED"@,
            DriftType::ResponseBodyMissingRequired => "RESPONSE_BODY_MISSING_REQUIRED"@,
            DriftType::ParameterEnumViolation => "PARAMETER_ENUM_VIOLATION"@,
            DriftType::RequestBodyEnumViolation => "REQUEST_BODY_ENUM_VIOLATION"@,
            DriftType::ResponseBodyEnumViolation => "RESPONSE_BODY_ENUM_VIOLATION"@,
            DriftType::ParameterOneOfNoMatch => "PARAMETER_ONEOF_NO_MATCH"@,
            DriftType::RequestBodyOneOfNoMatch => "REQUEST_BODY_ONEOF_NO_MATCH"@,
            DriftType::ResponseBodyOneOfNoMatch => "RESPONSE_BODY_ONEOF_NO_MATCH"@,
            DriftType::ParameterAnyOfNoMatch => "PARAMETER_ANYOF_NO_MATCH"@,
            DriftType::RequestBodyAnyOfNoMatch => "REQUEST_BODY_ANYOF_NO_MATCH"@,
            DriftType::ResponseBodyAnyOfNoMatch => "RESPONSE_BODY_ANYOF_NO_MATCH"@,
        }
    }

    /// The stable name of a drift kind, used when a finding is formatted.
    pub fn as_str(&self) -> (r: &'static str)
        ensures
            r@ == self.spec_name(),
    {
        match self {
            DriftType::ParameterTypeMismatch => "PARAMETER_TYPE_MISMATCH",
            DriftType::RequestBodyTypeMismatch => "REQUEST_BODY_TYPE_MISMATCH",
            DriftType::ResponseBodyTypeMismatch => "RESPONSE_BODY_TYPE_MISMATCH",
            DriftType::ParameterMissingRequired => "PARAMETER_MISSING_REQUIRED",
            DriftType::RequestBodyMissingRequired => "REQUEST_BODY_MISSING_REQUIRED",
            DriftType::ResponseBodyMissingRequired => "RESPONSE_BODY_MISSING_REQUIRED",
            DriftType::ParameterEnumViolation => "PARAMETER_ENUM_VIOLATION",
            DriftType::RequestBodyEnumViolation => "REQUEST_BODY_ENUM_VIOLATION",
            DriftType::ResponseBodyEnumViolation => "RESPONSE_BODY_ENUM_VIOLATION",
            DriftType::ParameterOneOfNoMatch => "PARAMETER_ONEOF_NO_MATCH",
            DriftType::RequestBodyOneOfNoMatch => "REQUEST_BODY_ONEOF_NO_MATCH",
            DriftType::ResponseBodyOneOfNoMatch => "RESPONSE_BODY_ONEOF_NO_MATCH",
            DriftType::ParameterAnyOfNoMatch => "PARAMETER_ANYOF_NO_MATCH",
            DriftType::RequestBodyAnyOfNoMatch => "REQUEST_BODY_ANYOF_NO_MATCH",
            DriftType::ResponseBodyAnyOfNoMatch => "RESPONSE_BODY_ANYOF_NO_MATCH",
        }
    }
}

} // verus!
