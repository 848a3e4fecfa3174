//! The classify-and-report pipeline shared by the parameter, request body
//! and response body validators: every structural finding is run through the
//! drift classifier, recognized findings are formatted, and a check whose
//! findings all fall outside the drift taxonomy counts as a pass —
//! drift-relevant classification, not raw structural validity, decides
//! pass/fail at this layer.

use vstd::prelude::*;
use vstd::string::StringExecFns;
use crate::drift_types::{map_to_drift_type, spec_drift_of, ValidationContext};
use crate::schema::{accepts, findings_of, schema_is_valid, schema_list_findings};
use crate::schema::{CompiledSchema, Finding, FindingModel};
use crate::validation_helpers::{
    format_drift_error, format_instance_location, join_messages, spec_format_drift_error,
    spec_format_instance_location, spec_join_messages,
};

verus! {

/// How a finding's location is rendered: for a parameter, the parameter name
/// with the instance path in brackets; for a body, a fixed prefix followed
/// by the instance path.
pub enum DriftLocation<'a> {
    ParameterNamed(&'a str),
    BodyPrefixed(&'a str),
}

/// The mathematical content of a `DriftLocation`.
pub ghost enum LocationStyle {
    ParameterNamed(Seq<char>),
    BodyPrefixed(Seq<char>),
}

impl<'a> View for DriftLocation<'a> {
    type V = LocationStyle;

    open spec fn view(&self) -> LocationStyle {
        match *self {
            DriftLocation::ParameterNamed(name) => LocationStyle::ParameterNamed(name@),
            DriftLocation::BodyPrefixed(prefix) => LocationStyle::BodyPrefixed(prefix@),
        }
    }
}

/// The rendered location of one finding.
pub open spec fn spec_location_of(style: LocationStyle, instance_path: Seq<char>) -> Seq<char> {
    match style {
        LocationStyle::ParameterNamed(name) => if instance_path.len() == 0 {
            name
        } else {
            name + "["@ + instance_path + "]"@
        },
        LocationStyle::BodyPrefixed(prefix) => spec_format_instance_location(instance_path, prefix),
    }
}

/// The formatted messages of the classifiable findings, in report order;
/// findings outside the drift taxonomy contribute nothing.
pub open spec fn spec_drift_messages(
    findings: Seq<FindingModel>,
    context: ValidationContext,
    style: LocationStyle,
) -> Seq<Seq<char>>
    decreases findings.len(),
{
    if findings.len() == 0 {
        Seq::empty()
    } else {
        let rest = spec_drift_messages(findings.drop_last(), context, style);
        match spec_drift_of(findings.last().kind, context) {
            Some(d) => rest.push(
                spec_format_drift_error(
                    d,
                    spec_location_of(style, findings.last().instance_path),
                    findings.last().message,
                ),
            ),
            None => rest,
        }
    }
}

/// The outcome of checking one value: `None` for a pass — the value
/// conforms, or every finding fell outside the drift taxonomy — and the
/// joined messages of the classified findings otherwise.
pub open spec fn spec_classified_outcome(
    v: CompiledSchema,
    value: serde_json::Value,
    context: ValidationContext,
    style: LocationStyle,
) -> Option<Seq<char>> {
    let msgs = spec_drift_messages(findings_of(v, value), context, style);
    if msgs.len() == 0 {
        None
    } else {
        Some(spec_join_messages(msgs))
    }
}

fn location_of(style: &DriftLocation<'_>, instance_path: &str) -> (r: String)
    ensures
        r@ == spec_location_of(style@, instance_path@),
{
    match style {
        DriftLocation::ParameterNamed(name) => {
            if instance_path.unicode_len() == 0 {
                (*name).to_owned()
            } else {
                let mut s = String::new();
                s.append(name);
                s.append("[");
                s.append(instance_path);
                s.append("]");
                proof {
                    assert(s@ =~= spec_location_of(style@, instance_path@));
                }
                s
            }
        },
        DriftLocation::BodyPrefixed(prefix) => format_instance_location(instance_path, prefix),
    }
}

/// Formats the classifiable findings for one context, dropping every finding
/// outside the drift taxonomy.
pub fn drift_messages(
    findings: &Vec<Finding>,
    context: ValidationContext,
    style: &DriftLocation<'_>,
) -> (r: Vec<String>)
    ensures
        r@.map_values(|s: String| s@) == spec_drift_messages(
            findings@.map_values(|f: Finding| f@),
            context,
            style@,
        ),
{
    let ghost fm = findings@.map_values(|f: Finding| f@);
    let mut out: Vec<String> = Vec::new();
    let mut i: usize = 0;
    while i < findings.len()
        invariant
            i <= findings.len(),
            fm == findings@.map_values(|f: Finding| f@),
            out@.map_values(|s: String| s@) == spec_drift_messages(
                fm.take(i as int),
                context,
                style@,
            ),
        decreases findings.len() - i,
    {
        let f = &findings[i];
        match map_to_drift_type(f.kind, context) {
            Some(d) => {
                let loc = location_of(style, f.instance_path.as_str());
                let msg = format_drift_error(d, loc.as_str(), f.message.as_str());
                out.push(msg);
            },
            None => {},
        }
        proof {
            assert(fm.take(i + 1).drop_last() =~= fm.take(i as int));
            assert(fm.take(i + 1).last() == fm[i as int]);
            assert(out@.map_values(|s: String| s@) =~= spec_drift_messages(
                fm.take(i + 1),
                context,
                style@,
            ));
        }
        i = i + 1;
    }
    proof {
        assert(fm.take(fm.len() as int) =~= fm);
    }
    out
}

/// Checks one value against one compiled schema under one context: a pass is
/// `None`; a failure is the joined messages of the classified findings.
/// A structurally invalid value whose findings all fall outside the drift
/// taxonomy passes.
pub fn check_classified(
    v: &CompiledSchema,
    value: &serde_json::Value,
    context: ValidationContext,
    style: &DriftLocation<'_>,
) -> (r: Option<String>)
    ensures
        r is None <==> spec_classified_outcome(*v, *value, context, style@) is None,
        r matches Some(m) ==> spec_classified_outcome(*v, *value, context, style@) == Some(m@),
        accepts(*v, *value) ==> r is None,
{
    if schema_is_valid(v, value) {
        proof {
            assert(spec_drift_messages(findings_of(*v, *value), context, style@) =~= Seq::<
                Seq<char>,
            >::empty());
        }
        None
    } else {
        let findings = schema_list_findings(v, value);
        let msgs = drift_messages(&findings, context, style);
        if msgs.len() == 0 {
            proof {
                assert(msgs@.map_values(|s: String| s@).len() == 0);
            }
            None
        } else {
            Some(join_messages(&msgs))
        }
    }
}

} // verus!
