//! Validation of response bodies: a schema is selected by exact status code
//! with fallback to an optional default schema, and a present body is
//! checked against it.

use vstd::prelude::*;
use crate::classified::{spec_classified_outcome, check_classified, DriftLocation, LocationStyle};
use crate::drift_types::ValidationContext;
use crate::error::ValidationError;
use crate::schema::{
    accepts, build_validator, opt_value, registry_root, schema_accepts, schema_compiles,
    schema_findings, findings_of, CompiledSchema, SchemaRegistry,
};

verus! {

/// The schema registered for a status code: the last registration wins when
/// a code is registered twice.
pub open spec fn spec_lookup_code(
    entries: Seq<(u16, CompiledSchema)>,
    code: u16,
) -> Option<CompiledSchema>
    decreases entries.len(),
{
    if entries.len() == 0 {
        None
    } else if entries.last().0 == code {
        Some(entries.last().1)
    } else {
        spec_lookup_code(entries.drop_last(), code)
    }
}

/// The outcome of validating one response.
pub ghost enum ResponseOutcome {
    /// The body conforms, is absent, or none of its findings classify as
    /// drift.
    Pass,
    /// A present body under a status code that selects no schema: a
    /// contract-authoring gap, distinct from drift.
    NoSchema(u16),
    /// Drift: the joined messages of the classified findings.
    Drift(Seq<char>),
}

/// Validator for one operation's responses, keyed by status code.
pub struct ResponseValidator {
    exact: Vec<(u16, CompiledSchema)>,
    fallback: Option<CompiledSchema>,
}

impl ResponseValidator {
    /// The registered (status code, compiled schema) pairs, in registration
    /// order.
    pub closed spec fn spec_exact(self) -> Seq<(u16, CompiledSchema)> {
        self.exact@
    }

    /// The default schema, used when no exact status code matches.
    pub closed spec fn spec_fallback(self) -> Option<CompiledSchema> {
        self.fallback
    }

    /// An empty response validator: no schema for any status code.
    pub fn new() -> (r: Self)
        ensures
            r.spec_exact() == Seq::<(u16, CompiledSchema)>::empty(),
            r.spec_fallback() is None,
    {
        ResponseValidator { exact: Vec::new(), fallback: None }
    }

    /// Compiles and registers the response schema of one status code. A code
    /// registered again replaces its earlier schema.
    pub fn add_response(
        &mut self,
        status_code: u16,
        schema: &serde_json::Value,
        registry: &SchemaRegistry,
    ) -> (r: Result<(), ValidationError>)
        ensures
            r is Ok <==> schema_compiles(*schema, registry_root(*registry)),
            r matches Err(e) ==> e is SchemaCompilationError && *final(self) == *old(self),
            r is Ok ==> final(self).spec_fallback() == old(self).spec_fallback()
                && final(self).spec_exact().len() == old(self).spec_exact().len() + 1
                && final(self).spec_exact().drop_last() == old(self).spec_exact()
                && final(self).spec_exact().last().0 == status_code && (forall|
                val: serde_json::Value,
            | #[trigger]
                accepts(final(self).spec_exact().last().1, val) == schema_accepts(
                    *schema,
                    registry_root(*registry),
                    val,
                )) && (forall|val: serde_json::Value| #[trigger]
                findings_of(final(self).spec_exact().last().1, val) == schema_findings(
                    *schema,
                    registry_root(*registry),
                    val,
                )),
    {
        let mut context = String::new();
        context.append("response ");
        let digits = crate::strutil::u16_to_string(status_code);
        context.append(digits.as_str());
        match build_validator(schema, registry, context.as_str()) {
            Ok(validator) => {
                self.exact.push((status_code, validator));
                proof {
                    assert(self.exact@.drop_last() =~= old(self).exact@);
                }
                Ok(())
            },
            Err(e) => Err(e),
        }
    }

    /// Compiles and sets the default response schema, used when no exact
    /// status code matches.
    pub fn set_default(&mut self, schema: &serde_json::Value, registry: &SchemaRegistry) -> (r:
        Result<(), ValidationError>)
        ensures
            r is Ok <==> schema_compiles(*schema, registry_root(*registry)),
            r matches Err(e) ==> e is SchemaCompilationError && *final(self) == *old(self),
            r is Ok ==> (final(self).spec_fallback() matches Some(cs) && final(self).spec_exact()
                == old(self).spec_exact() && (forall|val: serde_json::Value| #[trigger]
                accepts(cs, val) == schema_accepts(*schema, registry_root(*registry), val)) && (
            forall|val: serde_json::Value| #[trigger]
                findings_of(cs, val) == schema_findings(*schema, registry_root(*registry), val))),
    {
        match build_validator(schema, registry, "default response") {
            Ok(validator) => {
                self.fallback = Some(validator);
                Ok(())
            },
            Err(e) => Err(e),
        }
    }

    /// The schema a status code selects: the exact registration first, else
    /// the default, else none.
    pub open spec fn spec_selected(self, code: u16) -> Option<CompiledSchema> {
        match spec_lookup_code(self.spec_exact(), code) {
            Some(cs) => Some(cs),
            None => self.spec_fallback(),
        }
    }

    fn lookup_code(&self, code: u16) -> (r: Option<&CompiledSchema>)
        ensures
            match r {
                Some(cs) => spec_lookup_code(self.spec_exact(), code) == Some(*cs),
                None => spec_lookup_code(self.spec_exact(), code) is None,
            },
    {
        proof {
            assert(self.exact@.take(self.exact@.len() as int) =~= self.exact@);
        }
        let mut i: usize = self.exact.len();
        while i > 0
            invariant
                i <= self.exact.len(),
                spec_lookup_code(self.spec_exact(), code) == spec_lookup_code(
                    self.exact@.take(i as int),
                    code,
                ),
            decreases i,
        {
            i = i - 1;
            proof {
                assert(self.exact@.take(i + 1).last() == self.exact@[i as int]);
                assert(self.exact@.take(i + 1).drop_last() =~= self.exact@.take(i as int));
            }
            if self.exact[i].0 == code {
                return Some(&self.exact[i].1);
            }
        }
        None
    }

    /// The outcome of validating a response: a pass, a contract-authoring
    /// gap (no schema for the status code — distinct from drift), or drift
    /// with the joined messages of the classified findings. An absent body
    /// always passes, whatever schema — or none — the status code selects; a
    /// present body under a selected schema is checked and its findings
    /// classified.
    pub open spec fn spec_outcome(self, code: u16, body: Option<serde_json::Value>)
        -> ResponseOutcome {
        match body {
            None => ResponseOutcome::Pass,
            Some(v) => match self.spec_selected(code) {
                None => ResponseOutcome::NoSchema(code),
                Some(cs) => match spec_classified_outcome(
                    cs,
                    v,
                    ValidationContext::ResponseBody,
                    LocationStyle::BodyPrefixed("body"@),
                ) {
                    None => ResponseOutcome::Pass,
                    Some(m) => ResponseOutcome::Drift(m),
                },
            },
        }
    }

    /// Validates a response body against the schema its status code selects.
    pub fn validate(&self, status_code: u16, body: Option<&serde_json::Value>) -> (r: Result<
        (),
        ValidationError,
    >)
        ensures
            body is None ==> r is Ok,
            body matches Some(v) ==> (self.spec_selected(status_code) matches Some(cs) ==> (
            accepts(cs, *v) ==> r is Ok)),
            r is Ok <==> self.spec_outcome(status_code, opt_value(body)) is Pass,
            r matches Err(e) ==> match self.spec_outcome(status_code, opt_value(body)) {
                ResponseOutcome::Pass => false,
                ResponseOutcome::NoSchema(c) => e == ValidationError::NoSchemaForStatusCode(c),
                ResponseOutcome::Drift(m) => e matches ValidationError::ValidationFailed(s) && s@
                    == m,
            },
    {
        match body {
            None => Ok(()),
            Some(value) => {
                match self.lookup_code(status_code) {
                    Some(cs) => {
                        match check_classified(
                            cs,
                            value,
                            ValidationContext::ResponseBody,
                            &DriftLocation::BodyPrefixed("body"),
                        ) {
                            None => Ok(()),
                            Some(m) => Err(ValidationError::ValidationFailed(m)),
                        }
                    },
                    None => {
                        match &self.fallback {
                            Some(cs) => {
                                match check_classified(
                                    cs,
                                    value,
                                    ValidationContext::ResponseBody,
                                    &DriftLocation::BodyPrefixed("body"),
                                ) {
                                    None => Ok(()),
                                    Some(m) => Err(ValidationError::ValidationFailed(m)),
                                }
                            },
                            None => Err(ValidationError::NoSchemaForStatusCode(status_code)),
                        }
                    },
                }
            },
        }
    }
}

} // verus!
