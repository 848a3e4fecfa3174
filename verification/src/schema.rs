//! The trusted boundary to the structural schema compiler.
//!
//! The engine treats schema compilation and structural matching as an outside
//! capability: a schema (a JSON value) plus the shared components section of
//! the contract is compiled into a validator; a validator, asked about a JSON
//! value, answers whether the value conforms and reports its structural
//! findings. JSON values themselves are opaque here — the engine never looks
//! inside them, it only routes them to the right validator and classifies
//! what the validator reports.
//!
//! Schema-internal references of the form `#/components/...` are document
//! pointers: each schema is compiled as a document carrying the shared
//! components section under its `components` key, so that those pointers
//! resolve against the section the registry was prepared from. (A schema
//! with a top-level `components` member of its own would be displaced by the
//! shared section; no such member exists in a contract's schema grammar.)
//! Compilation is offline: a reference pointing outside that document is
//! refused, never fetched, so nothing but the schema and the shared section
//! flows into any compiled validator.
//!
//! Everything the rest of the library knows about this boundary is stated in
//! this module: the named results `schema_compiles` / `schema_accepts` /
//! `schema_findings` (functions of the schema and the registry's document
//! alone), and the per-validator names `accepts` / `findings_of` that the
//! wrappers below tie to them.

use vstd::prelude::*;
use vstd::string::StringExecFns;
use crate::drift_types::FindingKind;
use crate::error::ValidationError;
use crate::strutil::spec_has_prefix;
use jsonschema::error::ValidationErrorKind;

verus! {

#[verifier::external_type_specification]
#[verifier::external_body]
pub struct ExValue(serde_json::Value);

/// A compiled structural validator, held opaquely.
#[verifier::external_body]
pub struct CompiledSchema {
    inner: jsonschema::Validator,
}

/// The shared reference registry of one contract: the components section its
/// schemas' internal references resolve against, prepared once per build and
/// passed explicitly into every schema compilation.
#[verifier::external_body]
pub struct SchemaRegistry {
    root: Option<serde_json::Value>,
}

/// One structural finding reported by a validator: its recognized kind (or
/// `Other`), where in the checked value it points, and its message.
pub struct Finding {
    pub kind: FindingKind,
    pub instance_path: String,
    pub message: String,
}

/// The mathematical content of a `Finding`.
pub ghost struct FindingModel {
    pub kind: FindingKind,
    pub instance_path: Seq<char>,
    pub message: Seq<char>,
}

impl View for Finding {
    type V = FindingModel;

    open spec fn view(&self) -> FindingModel {
        FindingModel {
            kind: self.kind,
            instance_path: self.instance_path@,
            message: self.message@,
        }
    }
}

/// An optional borrowed JSON value, as the value it points at.
pub open spec fn opt_value(body: Option<&serde_json::Value>) -> Option<serde_json::Value> {
    match body {
        Some(v) => Some(*v),
        None => None,
    }
}

/// The document a registry holds: the components section it was prepared
/// from, or nothing for a registry prepared empty.
pub uninterp spec fn registry_root(r: SchemaRegistry) -> Option<serde_json::Value>;

/// Whether a schema compiles under a registry holding the given components
/// section.
pub uninterp spec fn schema_compiles(
    schema: serde_json::Value,
    reg_root: Option<serde_json::Value>,
) -> bool;

/// Whether a value conforms to a schema compiled under the given components
/// section.
pub uninterp spec fn schema_accepts(
    schema: serde_json::Value,
    reg_root: Option<serde_json::Value>,
    value: serde_json::Value,
) -> bool;

/// The structural findings, in report order, of checking a value against a
/// schema compiled under the given components section.
pub uninterp spec fn schema_findings(
    schema: serde_json::Value,
    reg_root: Option<serde_json::Value>,
    value: serde_json::Value,
) -> Seq<FindingModel>;

/// Whether a value conforms to a compiled validator's schema.
pub uninterp spec fn accepts(v: CompiledSchema, value: serde_json::Value) -> bool;

/// The structural findings, in report order, of checking a value against a
/// compiled validator.
pub uninterp spec fn findings_of(v: CompiledSchema, value: serde_json::Value) -> Seq<FindingModel>;

/// Holds the cloned components section as the registry's document; nothing
/// here can fail, and the registry holds exactly what it was given.
#[verifier::external_body]
fn make_registry(root: Option<&serde_json::Value>) -> (r: SchemaRegistry)
    ensures
        root matches Some(v) ==> registry_root(r) == Some(*v),
        root is None ==> registry_root(r) is None,
{
    SchemaRegistry { root: root.cloned() }
}

/// Relies on `jsonschema::options().offline().build(..)`: compilation
/// succeeds exactly when the schema — carrying the registry's components
/// section under the given key, so that its internal references resolve — is
/// well-formed, and the behaviour of the compiled validator is a function of
/// the schema and that section alone. Building offline is what makes that
/// claim true: a reference that points outside the merged document (an
/// `http(s):` or `file:` URI, or an unknown `$schema`) is refused instead of
/// being fetched from the network or disk, so such a schema fails to
/// compile, deterministically — nothing but the two arguments flows into the
/// result.
#[verifier::external_body]
fn compile_under_registry(
    schema: &serde_json::Value,
    registry: &SchemaRegistry,
    components_key: &str,
) -> (r: Result<CompiledSchema, String>)
    requires
        components_key@ == "components"@,
    ensures
        r is Ok <==> schema_compiles(*schema, registry_root(*registry)),
        r matches Ok(v) ==> (forall|val: serde_json::Value| #[trigger]
            accepts(v, val) == schema_accepts(*schema, registry_root(*registry), val)),
        r matches Ok(v) ==> (forall|val: serde_json::Value| #[trigger]
            findings_of(v, val) == schema_findings(*schema, registry_root(*registry), val)),
{
    let doc = match (&registry.root, schema) {
        (Some(root), serde_json::Value::Object(s)) => {
            let mut m = s.clone();
            m.insert(components_key.to_string(), root.clone());
            serde_json::Value::Object(m)
        },
        _ => schema.clone(),
    };
    jsonschema::options()
        .offline()
        .build(&doc)
        .map(|v| CompiledSchema { inner: v })
        .map_err(|e| e.to_string())
}

/// Relies on `jsonschema::Validator::is_valid`, and on its documented
/// equivalence with `iter_errors` reporting nothing.
#[verifier::external_body]
pub fn schema_is_valid(v: &CompiledSchema, value: &serde_json::Value) -> (r: bool)
    ensures
        r == accepts(*v, *value),
        r <==> findings_of(*v, *value).len() == 0,
{
    v.inner.is_valid(value)
}

/// Relies on `jsonschema::Validator::iter_errors`: every structural finding
/// of the checked value, in report order, with its kind, instance path and
/// message. Report order is a function of the schema and the value alone:
/// the validator walks the schema's keywords and the value's entries in
/// their stored order.
#[verifier::external_body]
pub fn schema_list_findings(v: &CompiledSchema, value: &serde_json::Value) -> (r: Vec<Finding>)
    ensures
        r@.map_values(|f: Finding| f@) == findings_of(*v, *value),
{
    v.inner
        .iter_errors(value)
        .map(|e| Finding {
            kind: match e.kind() {
                ValidationErrorKind::Type { .. } => FindingKind::TypeMismatch,
                ValidationErrorKind::Required { .. } => FindingKind::MissingRequired,
                ValidationErrorKind::Enum { .. } => FindingKind::EnumViolation,
                ValidationErrorKind::OneOfNotValid { .. } => FindingKind::OneOfNoMatch,
                ValidationErrorKind::AnyOf { .. } => FindingKind::AnyOfNoMatch,
                _ => FindingKind::Other,
            },
            instance_path: e.instance_path().to_string(),
            message: e.to_string(),
        })
        .collect()
}

/// Prepares the shared registry for one contract from its components
/// section, if it has one. Preparation cannot fail; the `Result` carries
/// only errors of later stages' shape for callers that treat registry and
/// schema preparation alike.
pub fn build_registry(components: Option<&serde_json::Value>) -> (r: Result<
    SchemaRegistry,
    ValidationError,
>)
    ensures
        r is Ok,
        r matches Ok(reg) ==> registry_root(reg) == opt_value(components),
{
    Ok(make_registry(components))
}

/// The start of every compilation failure's message: it names the place of
/// the offending schema.
pub open spec fn spec_compile_error_prefix(error_context: Seq<char>) -> Seq<char> {
    "Failed to compile schema for "@ + error_context + ": "@
}

/// Compiles one schema under the shared registry, naming the defect's place
/// on failure.
pub fn build_validator(
    schema: &serde_json::Value,
    registry: &SchemaRegistry,
    error_context: &str,
) -> (r: Result<CompiledSchema, ValidationError>)
    ensures
        r is Ok <==> schema_compiles(*schema, registry_root(*registry)),
        r matches Ok(v) ==> (forall|val: serde_json::Value| #[trigger]
            accepts(v, val) == schema_accepts(*schema, registry_root(*registry), val)),
        r matches Ok(v) ==> (forall|val: serde_json::Value| #[trigger]
            findings_of(v, val) == schema_findings(*schema, registry_root(*registry), val)),
        r matches Err(e) ==> (e matches ValidationError::SchemaCompilationError(m)
            && spec_has_prefix(m@, spec_compile_error_prefix(error_context@))),
{
    match compile_under_registry(schema, registry, "components") {
        Ok(v) => Ok(v),
        Err(e) => {
            let mut m = String::new();
            m.append("Failed to compile schema for ");
            m.append(error_context);
            m.append(": ");
            m.append(e.as_str());
            proof {
                assert(m@ =~= spec_compile_error_prefix(error_context@) + e@);
                assert(m@.subrange(0, spec_compile_error_prefix(error_context@).len() as int)
                    =~= spec_compile_error_prefix(error_context@));
            }
            Err(ValidationError::SchemaCompilationError(m))
        },
    }
}

} // verus!
