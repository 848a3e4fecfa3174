//! Validation of one operation's declared parameters: three independent
//! lists — path, query and header — of (name, required flag, compiled
//! schema) triples, each checked against an observed name→value mapping.

use vstd::prelude::*;
use vstd::string::StringExecFns;
use crate::classified::{spec_classified_outcome, check_classified, DriftLocation, LocationStyle};
use crate::drift_types::{DriftType, ValidationContext};
use crate::error::ValidationError;
use crate::schema::{
    accepts, build_validator, registry_root, schema_accepts, schema_compiles, schema_findings,
    findings_of, CompiledSchema, SchemaRegistry,
};
use crate::validation_helpers::{format_drift_error, spec_format_drift_error};

verus! {

/// Validator for a single declared parameter.
pub struct ParameterValidator {
    name: String,
    required: bool,
    validator: CompiledSchema,
}

impl ParameterValidator {
    /// The parameter's declared name.
    pub closed spec fn spec_name(self) -> Seq<char> {
        self.name@
    }

    /// Whether the parameter must be present.
    pub closed spec fn spec_required(self) -> bool {
        self.required
    }

    /// The compiled schema the parameter's value is checked against.
    pub closed spec fn spec_validator(self) -> CompiledSchema {
        self.validator
    }

    /// Compiles the validator for one declared parameter under the shared
    /// registry.
    pub fn new(
        name: String,
        required: bool,
        schema: &serde_json::Value,
        registry: &SchemaRegistry,
    ) -> (r: Result<Self, ValidationError>)
        ensures
            r is Ok <==> schema_compiles(*schema, registry_root(*registry)),
            r matches Ok(p) ==> p.spec_name() == name@ && p.spec_required() == required && (forall|
                val: serde_json::Value,
            | #[trigger]
                accepts(p.spec_validator(), val) == schema_accepts(
                    *schema,
                    registry_root(*registry),
                    val,
                )) && (forall|val: serde_json::Value| #[trigger]
                findings_of(p.spec_validator(), val) == schema_findings(
                    *schema,
                    registry_root(*registry),
                    val,
                )),
            r matches Err(e) ==> e is SchemaCompilationError,
    {
        let mut context = String::new();
        context.append("parameter '");
        context.append(name.as_str());
        context.append("'");
        match build_validator(schema, registry, context.as_str()) {
            Ok(validator) => Ok(ParameterValidator { name, required, validator }),
            Err(e) => Err(e),
        }
    }

    /// The outcome of checking a present parameter value: `None` for a pass,
    /// else the joined messages of the classified findings.
    pub open spec fn spec_outcome(self, value: serde_json::Value) -> Option<Seq<char>> {
        spec_classified_outcome(
            self.spec_validator(),
            value,
            ValidationContext::Parameter,
            LocationStyle::ParameterNamed(self.spec_name()),
        )
    }

    /// Validates a present parameter value against the compiled schema,
    /// classifying each structural finding under the parameter context. A
    /// value every one of whose findings falls outside the drift taxonomy
    /// passes.
    pub fn validate(&self, value: &serde_json::Value) -> (r: Result<(), ValidationError>)
        ensures
            r is Ok <==> self.spec_outcome(*value) is None,
            r matches Err(e) ==> (e matches ValidationError::ValidationFailed(m) && Some(m@)
                == self.spec_outcome(*value)),
            accepts(self.spec_validator(), *value) ==> r is Ok,
    {
        match check_classified(
            &self.validator,
            value,
            ValidationContext::Parameter,
            &DriftLocation::ParameterNamed(self.name.as_str()),
        ) {
            None => Ok(()),
            Some(m) => Err(ValidationError::ValidationFailed(m)),
        }
    }

    /// The parameter name.
    pub fn name(&self) -> (r: &str)
        ensures
            r@ == self.spec_name(),
    {
        self.name.as_str()
    }

    /// Whether the parameter is required.
    pub fn is_required(&self) -> (r: bool)
        ensures
            r == self.spec_required(),
    {
        self.required
    }
}

/// The first value observed under a name, if any.
pub open spec fn spec_observed_get(
    observed: Seq<(String, serde_json::Value)>,
    name: Seq<char>,
) -> Option<serde_json::Value>
    decreases observed.len(),
{
    if observed.len() == 0 {
        None
    } else if observed[0].0@ == name {
        Some(observed[0].1)
    } else {
        spec_observed_get(observed.drop_first(), name)
    }
}

fn observed_get<'a>(
    observed: &'a Vec<(String, serde_json::Value)>,
    name: &String,
) -> (r: Option<&'a serde_json::Value>)
    ensures
        match r {
            Some(v) => spec_observed_get(observed@, name@) == Some(*v),
            None => spec_observed_get(observed@, name@) is None,
        },
{
    proof {
        assert(observed@.skip(0) =~= observed@);
    }
    let mut i: usize = 0;
    while i < observed.len()
        invariant
            i <= observed.len(),
            spec_observed_get(observed@, name@) == spec_observed_get(
                observed@.skip(i as int),
                name@,
            ),
        decreases observed.len() - i,
    {
        proof {
            assert(observed@.skip(i as int)[0] == observed@[i as int]);
            assert(observed@.skip(i as int).drop_first() =~= observed@.skip(i + 1));
        }
        if observed[i].0 == *name {
            return Some(&observed[i].1);
        }
        i = i + 1;
    }
    proof {
        assert(observed@.skip(observed@.len() as int) =~= Seq::<
            (String, serde_json::Value),
        >::empty());
    }
    None
}

/// The message reported when a required parameter is absent.
pub open spec fn spec_missing_parameter_message(name: Seq<char>) -> Seq<char> {
    spec_format_drift_error(
        DriftType::ParameterMissingRequired,
        name,
        "Required parameter '"@ + name + "' is missing"@,
    )
}

/// The outcome of checking one list of declared parameters against an
/// observed mapping, in declaration order, stopping at the first failure:
/// `None` for a pass, else the failure's message. A declared parameter that
/// is absent and not required is skipped; observed names that are not
/// declared are never flagged.
pub open spec fn spec_params_outcome(
    list: Seq<ParameterValidator>,
    observed: Seq<(String, serde_json::Value)>,
) -> Option<Seq<char>>
    decreases list.len(),
{
    if list.len() == 0 {
        None
    } else {
        let p = list[0];
        match spec_observed_get(observed, p.spec_name()) {
            Some(v) => match p.spec_outcome(v) {
                Some(m) => Some(m),
                None => spec_params_outcome(list.drop_first(), observed),
            },
            None => if p.spec_required() {
                Some(spec_missing_parameter_message(p.spec_name()))
            } else {
                spec_params_outcome(list.drop_first(), observed)
            },
        }
    }
}

/// Validator for all declared parameters of one operation.
pub struct ParametersValidator {
    path: Vec<ParameterValidator>,
    query: Vec<ParameterValidator>,
    header: Vec<ParameterValidator>,
}

impl ParametersValidator {
    /// The declared path parameters, in declaration order.
    pub closed spec fn spec_path(self) -> Seq<ParameterValidator> {
        self.path@
    }

    /// The declared query parameters, in declaration order.
    pub closed spec fn spec_query(self) -> Seq<ParameterValidator> {
        self.query@
    }

    /// The declared header parameters, in declaration order.
    pub closed spec fn spec_header(self) -> Seq<ParameterValidator> {
        self.header@
    }

    /// An empty parameter set: every location validates.
    pub fn new() -> (r: Self)
        ensures
            r.spec_path() == Seq::<ParameterValidator>::empty(),
            r.spec_query() == Seq::<ParameterValidator>::empty(),
            r.spec_header() == Seq::<ParameterValidator>::empty(),
    {
        ParametersValidator { path: Vec::new(), query: Vec::new(), header: Vec::new() }
    }

    /// Declares one more path parameter.
    pub fn add_path_parameter(&mut self, validator: ParameterValidator)
        ensures
            final(self).spec_path() == old(self).spec_path().push(validator),
            final(self).spec_query() == old(self).spec_query(),
            final(self).spec_header() == old(self).spec_header(),
    {
        self.path.push(validator);
    }

    /// Declares one more query parameter.
    pub fn add_query_parameter(&mut self, validator: ParameterValidator)
        ensures
            final(self).spec_query() == old(self).spec_query().push(validator),
            final(self).spec_path() == old(self).spec_path(),
            final(self).spec_header() == old(self).spec_header(),
    {
        self.query.push(validator);
    }

    /// Declares one more header parameter.
    pub fn add_header_parameter(&mut self, validator: ParameterValidator)
        ensures
            final(self).spec_header() == old(self).spec_header().push(validator),
            final(self).spec_path() == old(self).spec_path(),
            final(self).spec_query() == old(self).spec_query(),
    {
        self.header.push(validator);
    }

    fn validate_parameters(
        validators: &Vec<ParameterValidator>,
        params: &Vec<(String, serde_json::Value)>,
    ) -> (r: Result<(), ValidationError>)
        ensures
            r is Ok <==> spec_params_outcome(validators@, params@) is None,
            r matches Err(e) ==> (e matches ValidationError::ValidationFailed(m) && Some(m@)
                == spec_params_outcome(validators@, params@)),
    {
        proof {
            assert(validators@.skip(0) =~= validators@);
        }
        let mut i: usize = 0;
        while i < validators.len()
            invariant
                i <= validators.len(),
                spec_params_outcome(validators@, params@) == spec_params_outcome(
                    validators@.skip(i as int),
                    params@,
                ),
            decreases validators.len() - i,
        {
            proof {
                assert(validators@.skip(i as int)[0] == validators@[i as int]);
                assert(validators@.skip(i as int).drop_first() =~= validators@.skip(i + 1));
            }
            let p = &validators[i];
            match observed_get(params, &p.name) {
                Some(value) => {
                    match p.validate(value) {
                        Ok(()) => {},
                        Err(e) => {
                            return Err(e);
                        },
                    }
                },
                None => {
                    if p.is_required() {
                        let mut detail = String::new();
                        detail.append("Required parameter '");
                        detail.append(p.name());
                        detail.append("' is missing");
                        let msg = format_drift_error(
                            DriftType::ParameterMissingRequired,
                            p.name(),
                            detail.as_str(),
                        );
                        proof {
                            assert(detail@ =~= "Required parameter '"@ + p.spec_name()
                                + "' is missing"@);
                        }
                        return Err(ValidationError::ValidationFailed(msg));
                    }
                },
            }
            i = i + 1;
        }
        proof {
            assert(validators@.skip(validators@.len() as int) =~= Seq::<
                ParameterValidator,
            >::empty());
        }
        Ok(())
    }

    /// Validates observed path parameters against the declared list.
    pub fn validate_path(&self, params: &Vec<(String, serde_json::Value)>) -> (r: Result<
        (),
        ValidationError,
    >)
        ensures
            r is Ok <==> spec_params_outcome(self.spec_path(), params@) is None,
            r matches Err(e) ==> (e matches ValidationError::ValidationFailed(m) && Some(m@)
                == spec_params_outcome(self.spec_path(), params@)),
    {
        Self::validate_parameters(&self.path, params)
    }

    /// Validates observed query parameters against the declared list.
    pub fn validate_query(&self, params: &Vec<(String, serde_json::Value)>) -> (r: Result<
        (),
        ValidationError,
    >)
        ensures
            r is Ok <==> spec_params_outcome(self.spec_query(), params@) is None,
            r matches Err(e) ==> (e matches ValidationError::ValidationFailed(m) && Some(m@)
                == spec_params_outcome(self.spec_query(), params@)),
    {
        Self::validate_parameters(&self.query, params)
    }

    /// Validates observed header parameters against the declared list.
    pub fn validate_headers(&self, params: &Vec<(String, serde_json::Value)>) -> (r: Result<
        (),
        ValidationError,
    >)
        ensures
            r is Ok <==> spec_params_outcome(self.spec_header(), params@) is None,
            r matches Err(e) ==> (e matches ValidationError::ValidationFailed(m) && Some(m@)
                == spec_params_outcome(self.spec_header(), params@)),
    {
        Self::validate_parameters(&self.header, params)
    }
}

} // verus!
