//! The contract reference resolver: one-hop resolution of operation-level
//! references — parameters, request bodies, responses — into the shared
//! components section. Distinct, by design, from schema-internal references,
//! which the structural schema compiler's registry resolves; this resolver
//! never inspects schema bodies.

use vstd::prelude::*;
use vstd::string::StringExecFns;
use crate::error::ValidationError;
use crate::model::{ComponentsModel, ContractDoc, ParameterModel, RefOr, RequestBodyModel,
    ResponseModel};
use crate::route_match::chars_eq;
use crate::strutil::{spec_has_prefix, str_to_chars};

verus! {

/// How resolving one entry ends.
pub ghost enum ResolveOutcome<T> {
    /// The entry was inline, or its reference led to an inline definition.
    Resolved(T),
    /// The reference string does not begin with the expected category
    /// prefix.
    BadPrefix,
    /// No components section, no definition under the name, or the named
    /// definition is itself a reference — resolution is one hop only.
    NotFound,
}

/// The name a reference carries after its category prefix.
pub open spec fn spec_ref_name(s: Seq<char>, prefix: Seq<char>) -> Seq<char>
    recommends
        spec_has_prefix(s, prefix),
{
    s.subrange(prefix.len() as int, s.len() as int)
}

/// The first definition under a name in one components sub-map.
pub open spec fn spec_section_get<T>(section: Seq<(String, RefOr<T>)>, name: Seq<char>) -> Option<
    RefOr<T>,
>
    decreases section.len(),
{
    if section.len() == 0 {
        None
    } else if section[0].0@ == name {
        Some(section[0].1)
    } else {
        spec_section_get(section.drop_first(), name)
    }
}

/// The view of an optional components sub-map.
pub open spec fn spec_section_view<T>(section: Option<&Vec<(String, RefOr<T>)>>) -> Option<
    Seq<(String, RefOr<T>)>,
> {
    match section {
        Some(s) => Some(s@),
        None => None,
    }
}

/// What resolving an entry against one components sub-map yields: an inline
/// entry resolves to itself; a reference must carry the category prefix and
/// must lead, in one hop, to an inline definition under its name.
pub open spec fn spec_resolve<T>(
    entry: RefOr<T>,
    section: Option<Seq<(String, RefOr<T>)>>,
    prefix: Seq<char>,
) -> ResolveOutcome<T> {
    match entry {
        RefOr::Inline(item) => ResolveOutcome::Resolved(item),
        RefOr::Reference(r) => if !spec_has_prefix(r@, prefix) {
            ResolveOutcome::BadPrefix
        } else {
            match section {
                None => ResolveOutcome::NotFound,
                Some(sec) => match spec_section_get(sec, spec_ref_name(r@, prefix)) {
                    Some(RefOr::Inline(item)) => ResolveOutcome::Resolved(item),
                    _ => ResolveOutcome::NotFound,
                },
            }
        },
    }
}

/// The message of a reference whose prefix does not fit its category.
pub open spec fn spec_bad_prefix_message(reference: Seq<char>, prefix: Seq<char>) -> Seq<char> {
    "Invalid reference: "@ + reference + ". Expected prefix: "@ + prefix
}

/// The message of a reference that leads to no inline definition.
pub open spec fn spec_not_found_message(reference: Seq<char>) -> Seq<char> {
    "Reference not found: "@ + reference
}

fn has_prefix_chars(s: &Vec<char>, prefix: &Vec<char>) -> (r: bool)
    ensures
        r == spec_has_prefix(s@, prefix@),
{
    if s.len() < prefix.len() {
        return false;
    }
    let mut i: usize = 0;
    while i < prefix.len()
        invariant
            i <= prefix.len() <= s@.len(),
            forall|k: int| 0 <= k < i ==> s@[k] == prefix@[k],
        decreases prefix.len() - i,
    {
        if s[i] != prefix[i] {
            proof {
                assert(s@.subrange(0, prefix@.len() as int)[i as int] != prefix@[i as int]);
            }
            return false;
        }
        i = i + 1;
    }
    proof {
        assert(s@.subrange(0, prefix@.len() as int) =~= prefix@);
    }
    true
}

/// Resolves one entry against one components sub-map: an inline entry is
/// returned as it stands; a reference is checked for its category prefix and
/// followed one hop to an inline definition.
pub fn resolve_entry<'a, T>(
    entry: &'a RefOr<T>,
    section: Option<&'a Vec<(String, RefOr<T>)>>,
    prefix: &str,
) -> (r: Result<&'a T, ValidationError>)
    ensures
        ({
            let outcome = spec_resolve(*entry, spec_section_view(section), prefix@);
            match outcome {
                ResolveOutcome::Resolved(item) => r matches Ok(p) && *p == item,
                ResolveOutcome::BadPrefix => r matches Err(e) && e matches
                    ValidationError::SchemaCompilationError(m) && (entry matches RefOr::Reference(
                    rf,
                ) && m@ == spec_bad_prefix_message(rf@, prefix@)),
                ResolveOutcome::NotFound => r matches Err(e) && e matches
                    ValidationError::SchemaCompilationError(m) && (entry matches RefOr::Reference(
                    rf,
                ) && m@ == spec_not_found_message(rf@)),
            }
        }),
{
    match entry {
        RefOr::Inline(item) => Ok(item),
        RefOr::Reference(reference) => {
            let rc = str_to_chars(reference.as_str());
            let pc = str_to_chars(prefix);
            if !has_prefix_chars(&rc, &pc) {
                let mut m = String::new();
                m.append("Invalid reference: ");
                m.append(reference.as_str());
                m.append(". Expected prefix: ");
                m.append(prefix);
                return Err(ValidationError::SchemaCompilationError(m));
            }
            let mut name: Vec<char> = Vec::new();
            let mut i: usize = pc.len();
            while i < rc.len()
                invariant
                    pc@.len() <= i <= rc@.len(),
                    name@ == rc@.subrange(pc@.len() as int, i as int),
                decreases rc.len() - i,
            {
                name.push(rc[i]);
                proof {
                    assert(name@ =~= rc@.subrange(pc@.len() as int, i + 1));
                }
                i = i + 1;
            }
            proof {
                assert(name@ == spec_ref_name(reference@, prefix@));
            }
            let sec = match section {
                Some(sec) => sec,
                None => {
                    let mut m = String::new();
                    m.append("Reference not found: ");
                    m.append(reference.as_str());
                    return Err(ValidationError::SchemaCompilationError(m));
                },
            };
            proof {
                assert(sec@.skip(0) =~= sec@);
            }
            let ghost target = spec_ref_name(reference@, prefix@);
            let mut j: usize = 0;
            while j < sec.len()
                invariant
                    j <= sec@.len(),
                    (*entry) is Reference,
                    (*entry)->Reference_0 == *reference,
                    spec_has_prefix(reference@, prefix@),
                    spec_section_view(section) == Some(sec@),
                    target == spec_ref_name(reference@, prefix@),
                    spec_section_get(sec@, target) == spec_section_get(sec@.skip(j as int), target),
                    name@ == target,
                decreases sec.len() - j,
            {
                proof {
                    assert(sec@.skip(j as int)[0] == sec@[j as int]);
                    assert(sec@.skip(j as int).drop_first() =~= sec@.skip(j + 1));
                }
                let key = str_to_chars(sec[j].0.as_str());
                if chars_eq(&key, &name) {
                    match &sec[j].1 {
                        RefOr::Inline(item) => {
                            return Ok(item);
                        },
                        RefOr::Reference(_) => {
                            let mut m = String::new();
                            m.append("Reference not found: ");
                            m.append(reference.as_str());
                            return Err(ValidationError::SchemaCompilationError(m));
                        },
                    }
                }
                j = j + 1;
            }
            proof {
                assert(sec@.skip(sec@.len() as int) =~= Seq::<(String, RefOr<T>)>::empty());
            }
            let mut m = String::new();
            m.append("Reference not found: ");
            m.append(reference.as_str());
            Err(ValidationError::SchemaCompilationError(m))
        },
    }
}

/// The parameters sub-map of a contract's shared components section.
pub open spec fn spec_parameters_section(doc: ContractDoc) -> Option<
    Seq<(String, RefOr<ParameterModel>)>,
> {
    match doc.components {
        Some(c) => Some(c.parameters@),
        None => None,
    }
}

/// The request bodies sub-map of a contract's shared components section.
pub open spec fn spec_request_bodies_section(doc: ContractDoc) -> Option<
    Seq<(String, RefOr<RequestBodyModel>)>,
> {
    match doc.components {
        Some(c) => Some(c.request_bodies@),
        None => None,
    }
}

/// The responses sub-map of a contract's shared components section.
pub open spec fn spec_responses_section(doc: ContractDoc) -> Option<
    Seq<(String, RefOr<ResponseModel>)>,
> {
    match doc.components {
        Some(c) => Some(c.responses@),
        None => None,
    }
}

/// Resolves a parameter entry through the components' parameters sub-map.
pub fn resolve_parameter<'a>(entry: &'a RefOr<ParameterModel>, doc: &'a ContractDoc) -> (r: Result<
    &'a ParameterModel,
    ValidationError,
>)
    ensures
        ({
            let outcome = spec_resolve(
                *entry,
                spec_parameters_section(*doc),
                "#/components/parameters/"@,
            );
            match outcome {
                ResolveOutcome::Resolved(item) => r matches Ok(p) && *p == item,
                _ => r matches Err(e) && e is SchemaCompilationError,
            }
        }),
{
    let section = match &doc.components {
        Some(c) => Some(&c.parameters),
        None => None,
    };
    resolve_entry(entry, section, "#/components/parameters/")
}

/// Resolves a request body entry through the components' request bodies
/// sub-map.
pub fn resolve_request_body<'a>(entry: &'a RefOr<RequestBodyModel>, doc: &'a ContractDoc) -> (r:
    Result<&'a RequestBodyModel, ValidationError>)
    ensures
        ({
            let outcome = spec_resolve(
                *entry,
                spec_request_bodies_section(*doc),
                "#/components/requestBodies/"@,
            );
            match outcome {
                ResolveOutcome::Resolved(item) => r matches Ok(p) && *p == item,
                _ => r matches Err(e) && e is SchemaCompilationError,
            }
        }),
{
    let section = match &doc.components {
        Some(c) => Some(&c.request_bodies),
        None => None,
    };
    resolve_entry(entry, section, "#/components/requestBodies/")
}

/// Resolves a response entry through the components' responses sub-map.
pub fn resolve_response<'a>(entry: &'a RefOr<ResponseModel>, doc: &'a ContractDoc) -> (r: Result<
    &'a ResponseModel,
    ValidationError,
>)
    ensures
        ({
            let outcome = spec_resolve(
                *entry,
                spec_responses_section(*doc),
                "#/components/responses/"@,
            );
            match outcome {
                ResolveOutcome::Resolved(item) => r matches Ok(p) && *p == item,
                _ => r matches Err(e) && e is SchemaCompilationError,
            }
        }),
{
    let section = match &doc.components {
        Some(c) => Some(&c.responses),
        None => None,
    };
    resolve_entry(entry, section, "#/components/responses/")
}

} // verus!
