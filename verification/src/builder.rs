//! The contract compiler: walks a contract document, resolves operation-level
//! references, compiles every schema under the shared registry, and populates
//! the route index. A build either yields a complete validator set or fails
//! with a configuration error naming the defect — never a partial index.

use vstd::prelude::*;
use vstd::string::StringExecFns;
use crate::api_validator::{
    spec_parse_method, spec_parse_pattern, spec_route_error_message, ApiValidator, HttpMethod,
    OperationValidator,
};
use crate::error::ValidationError;
use crate::model::{
    ContractDoc, MediaTypeModel, OperationModel, ParameterFormat, ParameterLocation,
    ParameterModel, PathItemModel, RefOr, RequestBodyModel, ResponseModel, ResponsesModel,
    StatusCodeModel,
};
use crate::resolver::{
    resolve_parameter, resolve_request_body, resolve_response, spec_parameters_section,
    spec_request_bodies_section, spec_responses_section, spec_resolve, ResolveOutcome,
};
use crate::route_match::{chars_eq, spec_same_shape};
use crate::schema::{
    accepts, build_registry, findings_of, registry_root, schema_accepts, schema_compiles,
    schema_findings, CompiledSchema, SchemaRegistry,
};
use crate::strutil::{spec_has_prefix, str_to_chars};
use crate::validators::{
    ParameterValidator, ParametersValidator, RequestBodyValidator, ResponseValidator,
};

verus! {

/// Whether a compiled validator behaves exactly as the given schema does
/// under the given registry document.
pub open spec fn schema_behaves(
    cs: CompiledSchema,
    s: serde_json::Value,
    root: Option<serde_json::Value>,
) -> bool {
    (forall|val: serde_json::Value| #[trigger] accepts(cs, val) == schema_accepts(s, root, val))
        && (forall|val: serde_json::Value| #[trigger]
        findings_of(cs, val) == schema_findings(s, root, val))
}

/// The first media type declared under a name in a content map.
pub open spec fn spec_content_get(
    content: Seq<(String, MediaTypeModel)>,
    key: Seq<char>,
) -> Option<MediaTypeModel>
    decreases content.len(),
{
    if content.len() == 0 {
        None
    } else if content[0].0@ == key {
        Some(content[0].1)
    } else {
        spec_content_get(content.drop_first(), key)
    }
}

/// The JSON schema a content map declares: the schema of its
/// `application/json` media type. Every other media type is ignored, and a
/// content map without a JSON schema compiles as "no schema".
pub open spec fn spec_json_schema_of(content: Seq<(String, MediaTypeModel)>) -> Option<
    serde_json::Value,
> {
    match spec_content_get(content, "application/json"@) {
        Some(mt) => mt.schema,
        None => None,
    }
}

/// Picks the JSON schema out of a content map, if one is declared.
pub fn extract_json_schema<'a>(content: &'a Vec<(String, MediaTypeModel)>) -> (r: Option<
    &'a serde_json::Value,
>)
    ensures
        match r {
            Some(v) => spec_json_schema_of(content@) == Some(*v),
            None => spec_json_schema_of(content@) is None,
        },
{
    let key = str_to_chars("application/json");
    proof {
        assert(content@.skip(0) =~= content@);
    }
    let mut i: usize = 0;
    while i < content.len()
        invariant
            i <= content@.len(),
            key@ == "application/json"@,
            spec_content_get(content@, "application/json"@) == spec_content_get(
                content@.skip(i as int),
                "application/json"@,
            ),
        decreases content.len() - i,
    {
        proof {
            assert(content@.skip(i as int)[0] == content@[i as int]);
            assert(content@.skip(i as int).drop_first() =~= content@.skip(i + 1));
        }
        let k = str_to_chars(content[i].0.as_str());
        if chars_eq(&k, &key) {
            return match &content[i].1.schema {
                Some(v) => Some(v),
                None => None,
            };
        }
        i = i + 1;
    }
    proof {
        assert(content@.skip(content@.len() as int) =~= Seq::<(String, MediaTypeModel)>::empty());
    }
    None
}

/// The models the parameter entries of one operation resolve to, in order;
/// nothing if any entry fails to resolve.
pub open spec fn spec_resolve_params(
    params: Seq<RefOr<ParameterModel>>,
    doc: ContractDoc,
) -> Option<Seq<ParameterModel>>
    decreases params.len(),
{
    if params.len() == 0 {
        Some(Seq::empty())
    } else {
        match spec_resolve_params(params.drop_last(), doc) {
            None => None,
            Some(ms) => match spec_resolve(
                params.last(),
                spec_parameters_section(doc),
                "#/components/parameters/"@,
            ) {
                ResolveOutcome::Resolved(m) => Some(ms.push(m)),
                _ => None,
            },
        }
    }
}

/// Each resolved model is what its entry resolves to.
pub proof fn lemma_resolve_params_index(params: Seq<RefOr<ParameterModel>>, doc: ContractDoc)
    ensures
        spec_resolve_params(params, doc) matches Some(ms) ==> ms.len() == params.len() && (forall|
            i: int,
        |
            0 <= i < params.len() ==> spec_resolve(
                #[trigger] params[i],
                spec_parameters_section(doc),
                "#/components/parameters/"@,
            ) == ResolveOutcome::Resolved(ms[i])),
    decreases params.len(),
{
    if params.len() > 0 {
        lemma_resolve_params_index(params.drop_last(), doc);
        match spec_resolve_params(params, doc) {
            Some(ms) => {
                assert(params.drop_last().len() == params.len() - 1);
                assert forall|i: int| 0 <= i < params.len() implies spec_resolve(
                    #[trigger] params[i],
                    spec_parameters_section(doc),
                    "#/components/parameters/"@,
                ) == ResolveOutcome::Resolved(ms[i]) by {
                    if i < params.len() - 1 {
                        assert(params.drop_last()[i] == params[i]);
                        assert(ms.drop_last()[i] == ms[i]);
                    }
                }
            },
            None => {},
        }
    }
}

/// A failing entry fails the whole resolution.
pub proof fn lemma_resolve_params_fails(
    params: Seq<RefOr<ParameterModel>>,
    doc: ContractDoc,
    i: int,
)
    requires
        0 <= i < params.len(),
        !(spec_resolve(
            params[i],
            spec_parameters_section(doc),
            "#/components/parameters/"@,
        ) is Resolved),
    ensures
        spec_resolve_params(params, doc) is None,
    decreases params.len(),
{
    if i < params.len() - 1 {
        assert(params.drop_last()[i] == params[i]);
        lemma_resolve_params_fails(params.drop_last(), doc, i);
    }
}

/// Whether every non-cookie parameter carries a schema — not a content map —
/// and that schema compiles.
pub open spec fn spec_params_compile(
    ms: Seq<ParameterModel>,
    root: Option<serde_json::Value>,
) -> bool {
    forall|i: int|
        0 <= i < ms.len() && !((#[trigger] ms[i]).location is Cookie) ==> ms[i].format is Schema
            && schema_compiles(ms[i].format->Schema_0, root)
}

/// The resolved parameters of one location, in declaration order.
pub open spec fn spec_filter_loc(ms: Seq<ParameterModel>, loc: ParameterLocation) -> Seq<
    ParameterModel,
>
    decreases ms.len(),
{
    if ms.len() == 0 {
        Seq::empty()
    } else {
        let rest = spec_filter_loc(ms.drop_last(), loc);
        if ms.last().location == loc {
            rest.push(ms.last())
        } else {
            rest
        }
    }
}

/// Whether one compiled parameter validator is the compilation of one
/// resolved parameter model.
pub open spec fn param_matches_model(
    p: ParameterValidator,
    m: ParameterModel,
    root: Option<serde_json::Value>,
) -> bool {
    &&& p.spec_name() == m.name@
    &&& p.spec_required() == m.required
    &&& m.format matches ParameterFormat::Schema(s) && schema_behaves(p.spec_validator(), s, root)
}

/// Whether a list of compiled parameter validators is the compilation of a
/// list of resolved parameter models, in order.
pub open spec fn params_correspond(
    ps: Seq<ParameterValidator>,
    ms: Seq<ParameterModel>,
    root: Option<serde_json::Value>,
) -> bool {
    ps.len() == ms.len() && (forall|i: int|
        0 <= i < ps.len() ==> param_matches_model(#[trigger] ps[i], ms[i], root))
}

/// Compiles the parameter set of one operation: every entry is resolved,
/// cookie parameters are dropped, content-based parameters are rejected, and
/// each remaining parameter's schema is compiled into the list of its
/// location.
pub fn build_parameters_validator(
    doc: &ContractDoc,
    registry: &SchemaRegistry,
    parameters: &Vec<RefOr<ParameterModel>>,
) -> (r: Result<ParametersValidator, ValidationError>)
    ensures
        ({
            let root = registry_root(*registry);
            match r {
                Ok(pv) => spec_resolve_params(parameters@, *doc) matches Some(ms)
                    && spec_params_compile(ms, root) && params_correspond(
                    pv.spec_path(),
                    spec_filter_loc(ms, ParameterLocation::Path),
                    root,
                ) && params_correspond(
                    pv.spec_query(),
                    spec_filter_loc(ms, ParameterLocation::Query),
                    root,
                ) && params_correspond(
                    pv.spec_header(),
                    spec_filter_loc(ms, ParameterLocation::Header),
                    root,
                ),
                Err(e) => e is SchemaCompilationError && (match spec_resolve_params(
                    parameters@,
                    *doc,
                ) {
                    Some(ms) => !spec_params_compile(ms, root),
                    None => true,
                }),
            }
        }),
{
    let ghost root = registry_root(*registry);
    let mut pv = ParametersValidator::new();
    let ghost mut ms: Seq<ParameterModel> = Seq::empty();
    let mut i: usize = 0;
    proof {
        assert(parameters@.take(0) =~= Seq::<RefOr<ParameterModel>>::empty());
    }
    while i < parameters.len()
        invariant
            i <= parameters@.len(),
            root == registry_root(*registry),
            spec_resolve_params(parameters@.take(i as int), *doc) == Some(ms),
            spec_params_compile(ms, root),
            params_correspond(pv.spec_path(), spec_filter_loc(ms, ParameterLocation::Path), root),
            params_correspond(
                pv.spec_query(),
                spec_filter_loc(ms, ParameterLocation::Query),
                root,
            ),
            params_correspond(
                pv.spec_header(),
                spec_filter_loc(ms, ParameterLocation::Header),
                root,
            ),
        decreases parameters@.len() - i,
    {
        proof {
            assert(parameters@.take(i + 1).drop_last() =~= parameters@.take(i as int));
            assert(parameters@.take(i + 1).last() == parameters@[i as int]);
        }
        let param = match resolve_parameter(&parameters[i], doc) {
            Ok(p) => p,
            Err(e) => {
                proof {
                    lemma_resolve_params_fails(parameters@, *doc, i as int);
                }
                return Err(e);
            },
        };
        let ghost msnext = ms.push(*param);
        proof {
            assert(spec_resolve_params(parameters@.take(i + 1), *doc) == Some(msnext));
        }
        match &param.location {
            ParameterLocation::Cookie => {
                proof {
                    assert(msnext.drop_last() =~= ms);
                    assert(spec_filter_loc(msnext, ParameterLocation::Path) == spec_filter_loc(
                        ms,
                        ParameterLocation::Path,
                    ));
                    assert(spec_filter_loc(msnext, ParameterLocation::Query) == spec_filter_loc(
                        ms,
                        ParameterLocation::Query,
                    ));
                    assert(spec_filter_loc(msnext, ParameterLocation::Header) == spec_filter_loc(
                        ms,
                        ParameterLocation::Header,
                    ));
                    assert forall|k: int|
                        0 <= k < msnext.len() && !((#[trigger] msnext[k]).location is Cookie)
                            implies msnext[k].format is Schema && schema_compiles(
                        msnext[k].format->Schema_0,
                        root,
                    ) by {
                        if k < ms.len() {
                            assert(msnext[k] == ms[k]);
                        }
                    }
                    ms = msnext;
                }
            },
            _ => {
                let schema = match &param.format {
                    ParameterFormat::Schema(schema) => schema,
                    ParameterFormat::Content => {
                        proof {
                            lemma_resolve_params_index(parameters@, *doc);
                            match spec_resolve_params(parameters@, *doc) {
                                Some(msf) => {
                                    assert(msf[i as int] == *param);
                                    assert(!spec_params_compile(msf, root));
                                },
                                None => {},
                            }
                        }
                        return Err(ValidationError::SchemaCompilationError(
                            "Content-based parameters not supported".to_owned(),
                        ));
                    },
                };
                let validator = match ParameterValidator::new(
                    param.name.clone(),
                    param.required,
                    schema,
                    registry,
                ) {
                    Ok(v) => v,
                    Err(e) => {
                        proof {
                            lemma_resolve_params_index(parameters@, *doc);
                            match spec_resolve_params(parameters@, *doc) {
                                Some(msf) => {
                                    assert(msf[i as int] == *param);
                                    assert(!spec_params_compile(msf, root));
                                },
                                None => {},
                            }
                        }
                        return Err(e);
                    },
                };
                proof {
                    assert(msnext.drop_last() =~= ms);
                    assert(param_matches_model(validator, *param, root));
                    assert forall|k: int|
                        0 <= k < msnext.len() && !((#[trigger] msnext[k]).location is Cookie)
                            implies msnext[k].format is Schema && schema_compiles(
                        msnext[k].format->Schema_0,
                        root,
                    ) by {
                        if k < ms.len() {
                            assert(msnext[k] == ms[k]);
                        }
                    }
                }
                match &param.location {
                    ParameterLocation::Path => {
                        pv.add_path_parameter(validator);
                    },
                    ParameterLocation::Query => {
                        pv.add_query_parameter(validator);
                    },
                    ParameterLocation::Header => {
                        pv.add_header_parameter(validator);
                    },
                    ParameterLocation::Cookie => {
                        proof {
                            assert(false);
                        }
                    },
                }
                proof {
                    ms = msnext;
                }
            },
        }
        i = i + 1;
    }
    proof {
        assert(parameters@.take(parameters@.len() as int) =~= parameters@);
    }
    Ok(pv)
}

/// The model a request body entry resolves to, if it resolves.
pub open spec fn spec_resolved_body(entry: RefOr<RequestBodyModel>, doc: ContractDoc) -> Option<
    RequestBodyModel,
> {
    match spec_resolve(entry, spec_request_bodies_section(doc), "#/components/requestBodies/"@) {
        ResolveOutcome::Resolved(m) => Some(m),
        _ => None,
    }
}

/// Whether a request body entry builds: it resolves, and its JSON schema —
/// if its content declares one — compiles.
pub open spec fn spec_body_build_ok(
    entry: RefOr<RequestBodyModel>,
    doc: ContractDoc,
    root: Option<serde_json::Value>,
) -> bool {
    spec_resolved_body(entry, doc) matches Some(m) && (match spec_json_schema_of(m.content@) {
        Some(s) => schema_compiles(s, root),
        None => true,
    })
}

/// Whether a compiled request body validator is the compilation of what a
/// request body entry resolves to.
pub open spec fn body_corresponds(
    bv: RequestBodyValidator,
    entry: RefOr<RequestBodyModel>,
    doc: ContractDoc,
    root: Option<serde_json::Value>,
) -> bool {
    spec_resolved_body(entry, doc) matches Some(m) && bv.spec_required() == m.required && (
    match spec_json_schema_of(m.content@) {
        Some(s) => bv.spec_schema() matches Some(cs) && schema_behaves(cs, s, root),
        None => bv.spec_schema() is None,
    })
}

/// Compiles one operation's request body: the entry is resolved, and its
/// JSON schema — if its content declares one — is compiled; a body without
/// JSON content compiles as "no schema".
pub fn build_request_body_validator(
    doc: &ContractDoc,
    registry: &SchemaRegistry,
    entry: &RefOr<RequestBodyModel>,
) -> (r: Result<RequestBodyValidator, ValidationError>)
    ensures
        ({
            let root = registry_root(*registry);
            match r {
                Ok(bv) => spec_body_build_ok(*entry, *doc, root) && body_corresponds(
                    bv,
                    *entry,
                    *doc,
                    root,
                ),
                Err(e) => e is SchemaCompilationError && !spec_body_build_ok(*entry, *doc, root),
            }
        }),
{
    let body = match resolve_request_body(entry, doc) {
        Ok(m) => m,
        Err(e) => {
            return Err(e);
        },
    };
    match extract_json_schema(&body.content) {
        Some(schema) => match RequestBodyValidator::new(schema, body.required, registry) {
            Ok(bv) => Ok(bv),
            Err(e) => Err(e),
        },
        None => Ok(RequestBodyValidator::without_schema(body.required)),
    }
}

/// The (status code, model) pairs the response entries of one operation
/// resolve to, in order: range-keyed entries are skipped without being
/// resolved, and any failing code-keyed entry fails the whole set.
pub open spec fn spec_resolve_responses(
    rs: Seq<(StatusCodeModel, RefOr<ResponseModel>)>,
    doc: ContractDoc,
) -> Option<Seq<(u16, ResponseModel)>>
    decreases rs.len(),
{
    if rs.len() == 0 {
        Some(Seq::empty())
    } else {
        match spec_resolve_responses(rs.drop_last(), doc) {
            None => None,
            Some(acc) => match rs.last().0 {
                StatusCodeModel::Range(_) => Some(acc),
                StatusCodeModel::Code(c) => match spec_resolve(
                    rs.last().1,
                    spec_responses_section(doc),
                    "#/components/responses/"@,
                ) {
                    ResolveOutcome::Resolved(m) => Some(acc.push((c, m))),
                    _ => None,
                },
            },
        }
    }
}

/// A failing code-keyed entry fails the whole resolution.
pub proof fn lemma_resolve_responses_fails(
    rs: Seq<(StatusCodeModel, RefOr<ResponseModel>)>,
    doc: ContractDoc,
    i: int,
)
    requires
        0 <= i < rs.len(),
        rs[i].0 is Code,
        !(spec_resolve(rs[i].1, spec_responses_section(doc), "#/components/responses/"@)
            is Resolved),
    ensures
        spec_resolve_responses(rs, doc) is None,
    decreases rs.len(),
{
    if i < rs.len() - 1 {
        assert(rs.drop_last()[i] == rs[i]);
        lemma_resolve_responses_fails(rs.drop_last(), doc, i);
    }
}

/// Resolution of a prefix of the entries yields a prefix of the resolved
/// pairs.
pub proof fn lemma_resolve_responses_prefix(
    rs: Seq<(StatusCodeModel, RefOr<ResponseModel>)>,
    doc: ContractDoc,
    k: int,
)
    requires
        0 <= k <= rs.len(),
        spec_resolve_responses(rs, doc) is Some,
    ensures
        spec_resolve_responses(rs.take(k), doc) is Some,
        spec_resolve_responses(rs, doc) matches Some(b) ==> (spec_resolve_responses(
            rs.take(k),
            doc,
        ) matches Some(a) ==> a.len() <= b.len() && b.take(a.len() as int) == a),
    decreases rs.len(),
{
    if k == rs.len() {
        assert(rs.take(k) =~= rs);
        match spec_resolve_responses(rs, doc) {
            Some(b) => {
                assert(b.take(b.len() as int) =~= b);
            },
            None => {},
        }
    } else {
        lemma_resolve_responses_prefix(rs.drop_last(), doc, k);
        assert(rs.take(k) =~= rs.drop_last().take(k));
        match spec_resolve_responses(rs.drop_last(), doc) {
            Some(bp) => {
                match spec_resolve_responses(rs.take(k), doc) {
                    Some(a) => {
                        match spec_resolve_responses(rs, doc) {
                            Some(b) => {
                                assert(b == bp || b == bp.push(b.last()));
                                assert(b.take(a.len() as int) =~= bp.take(a.len() as int));
                            },
                            None => {},
                        }
                    },
                    None => {},
                }
            },
            None => {},
        }
    }
}

/// The schemas the exact status-code map compiles: one (code, schema) pair
/// per resolved response whose content declares a JSON schema, in order.
pub open spec fn spec_expected_exact(rs: Seq<(u16, ResponseModel)>) -> Seq<
    (u16, serde_json::Value),
>
    decreases rs.len(),
{
    if rs.len() == 0 {
        Seq::empty()
    } else {
        let rest = spec_expected_exact(rs.drop_last());
        match spec_json_schema_of(rs.last().1.content@) {
            Some(s) => rest.push((rs.last().0, s)),
            None => rest,
        }
    }
}

/// A prefix of the resolved pairs yields a prefix of the expected schemas.
pub proof fn lemma_expected_prefix(a: Seq<(u16, ResponseModel)>, b: Seq<(u16, ResponseModel)>)
    requires
        a.len() <= b.len(),
        b.take(a.len() as int) == a,
    ensures
        spec_expected_exact(a).len() <= spec_expected_exact(b).len(),
        spec_expected_exact(b).take(spec_expected_exact(a).len() as int) == spec_expected_exact(a),
    decreases b.len(),
{
    if a.len() == b.len() {
        assert(b.take(a.len() as int) =~= b);
        assert(spec_expected_exact(b).take(spec_expected_exact(a).len() as int)
            =~= spec_expected_exact(a));
    } else {
        assert(b.drop_last().take(a.len() as int) =~= b.take(a.len() as int));
        lemma_expected_prefix(a, b.drop_last());
        let ea = spec_expected_exact(a);
        let ep = spec_expected_exact(b.drop_last());
        let eb = spec_expected_exact(b);
        assert(eb == ep || eb == ep.push(eb.last()));
        assert(eb.take(ea.len() as int) =~= ep.take(ea.len() as int));
    }
}

/// Whether every expected exact-map schema compiles.
pub open spec fn spec_exact_compile(
    exp: Seq<(u16, serde_json::Value)>,
    root: Option<serde_json::Value>,
) -> bool {
    forall|i: int| 0 <= i < exp.len() ==> schema_compiles((#[trigger] exp[i]).1, root)
}

/// Whether the compiled exact map is the compilation of the expected one, in
/// order.
pub open spec fn exact_correspond(
    es: Seq<(u16, CompiledSchema)>,
    exp: Seq<(u16, serde_json::Value)>,
    root: Option<serde_json::Value>,
) -> bool {
    es.len() == exp.len() && (forall|i: int|
        0 <= i < es.len() ==> (#[trigger] es[i]).0 == exp[i].0 && schema_behaves(
            es[i].1,
            exp[i].1,
            root,
        ))
}

/// Whether the default response entry builds: absent, or resolved with a
/// compiling JSON schema (or none).
pub open spec fn spec_default_build_ok(
    d: Option<RefOr<ResponseModel>>,
    doc: ContractDoc,
    root: Option<serde_json::Value>,
) -> bool {
    match d {
        None => true,
        Some(entry) => match spec_resolve(
            entry,
            spec_responses_section(doc),
            "#/components/responses/"@,
        ) {
            ResolveOutcome::Resolved(m) => match spec_json_schema_of(m.content@) {
                Some(s) => schema_compiles(s, root),
                None => true,
            },
            _ => false,
        },
    }
}

/// Whether the compiled default schema is the compilation of the default
/// response entry.
pub open spec fn default_corresponds(
    fb: Option<CompiledSchema>,
    d: Option<RefOr<ResponseModel>>,
    doc: ContractDoc,
    root: Option<serde_json::Value>,
) -> bool {
    match d {
        None => fb is None,
        Some(entry) => match spec_resolve(
            entry,
            spec_responses_section(doc),
            "#/components/responses/"@,
        ) {
            ResolveOutcome::Resolved(m) => match spec_json_schema_of(m.content@) {
                Some(s) => fb matches Some(cs) && schema_behaves(cs, s, root),
                None => fb is None,
            },
            _ => false,
        },
    }
}

/// Whether one operation's response set builds.
pub open spec fn spec_responses_build_ok(
    rm: ResponsesModel,
    doc: ContractDoc,
    root: Option<serde_json::Value>,
) -> bool {
    &&& spec_resolve_responses(rm.responses@, doc) matches Some(rs) && spec_exact_compile(
        spec_expected_exact(rs),
        root,
    )
    &&& spec_default_build_ok(rm.default, doc, root)
}

/// Whether a compiled response validator is the compilation of one
/// operation's response set.
pub open spec fn responses_correspond(
    rv: ResponseValidator,
    rm: ResponsesModel,
    doc: ContractDoc,
    root: Option<serde_json::Value>,
) -> bool {
    &&& spec_resolve_responses(rm.responses@, doc) matches Some(rs) && exact_correspond(
        rv.spec_exact(),
        spec_expected_exact(rs),
        root,
    )
    &&& default_corresponds(rv.spec_fallback(), rm.default, doc, root)
}

/// Compiles one operation's response set: each code-keyed entry is resolved
/// and its JSON schema, if any, compiled under its status code; range-keyed
/// entries are skipped; the default entry, if any, is resolved and compiled
/// as the fallback.
pub fn build_response_validator(
    doc: &ContractDoc,
    registry: &SchemaRegistry,
    responses: &ResponsesModel,
) -> (r: Result<ResponseValidator, ValidationError>)
    ensures
        ({
            let root = registry_root(*registry);
            match r {
                Ok(rv) => spec_responses_build_ok(*responses, *doc, root) && responses_correspond(
                    rv,
                    *responses,
                    *doc,
                    root,
                ),
                Err(e) => e is SchemaCompilationError && !spec_responses_build_ok(
                    *responses,
                    *doc,
                    root,
                ),
            }
        }),
{
    let ghost root = registry_root(*registry);
    let ghost entries = responses.responses@;
    let mut rv = ResponseValidator::new();
    let ghost mut racc: Seq<(u16, ResponseModel)> = Seq::empty();
    let mut i: usize = 0;
    proof {
        assert(entries.take(0) =~= Seq::<(StatusCodeModel, RefOr<ResponseModel>)>::empty());
        assert(exact_correspond(rv.spec_exact(), spec_expected_exact(racc), root));
    }
    while i < responses.responses.len()
        invariant
            i <= entries.len(),
            root == registry_root(*registry),
            entries == responses.responses@,
            spec_resolve_responses(entries.take(i as int), *doc) == Some(racc),
            spec_exact_compile(spec_expected_exact(racc), root),
            exact_correspond(rv.spec_exact(), spec_expected_exact(racc), root),
            rv.spec_fallback() is None,
        decreases entries.len() - i,
    {
        proof {
            assert(entries.take(i + 1).drop_last() =~= entries.take(i as int));
            assert(entries.take(i + 1).last() == entries[i as int]);
        }
        let status = responses.responses[i].0;
        match status {
            StatusCodeModel::Range(_) => {},
            StatusCodeModel::Code(c) => {
                let m = match resolve_response(&responses.responses[i].1, doc) {
                    Ok(m) => m,
                    Err(e) => {
                        proof {
                            lemma_resolve_responses_fails(entries, *doc, i as int);
                        }
                        return Err(e);
                    },
                };
                let ghost rnext = racc.push((c, *m));
                proof {
                    assert(spec_resolve_responses(entries.take(i + 1), *doc) == Some(rnext));
                    assert(rnext.drop_last() =~= racc);
                }
                match extract_json_schema(&m.content) {
                    Some(schema) => {
                        let ghost oldexact = rv.spec_exact();
                        match rv.add_response(c, schema, registry) {
                            Ok(()) => {
                                proof {
                                    let exp = spec_expected_exact(rnext);
                                    assert(exp == spec_expected_exact(racc).push((c, *schema)));
                                    assert(rv.spec_exact().drop_last() == oldexact);
                                    assert forall|k: int| 0 <= k < exp.len() implies schema_compiles(
                                        (#[trigger] exp[k]).1,
                                        root,
                                    ) by {
                                        if k < exp.len() - 1 {
                                            assert(exp[k] == spec_expected_exact(racc)[k]);
                                        }
                                    }
                                    assert forall|k: int|
                                        0 <= k < rv.spec_exact().len() implies (
                                    #[trigger] rv.spec_exact()[k]).0 == exp[k].0 && schema_behaves(
                                        rv.spec_exact()[k].1,
                                        exp[k].1,
                                        root,
                                    ) by {
                                        if k < rv.spec_exact().len() - 1 {
                                            assert(rv.spec_exact()[k] == oldexact[k]);
                                            assert(exp[k] == spec_expected_exact(racc)[k]);
                                        } else {
                                            assert(rv.spec_exact()[k] == rv.spec_exact().last());
                                        }
                                    }
                                    racc = rnext;
                                }
                            },
                            Err(e) => {
                                proof {
                                    match spec_resolve_responses(entries, *doc) {
                                        Some(rsf) => {
                                            lemma_resolve_responses_prefix(
                                                entries,
                                                *doc,
                                                i + 1,
                                            );
                                            lemma_expected_prefix(rnext, rsf);
                                            let expn = spec_expected_exact(rnext);
                                            let expf = spec_expected_exact(rsf);
                                            assert(expn == spec_expected_exact(racc).push(
                                                (c, *schema),
                                            ));
                                            assert(expf[expn.len() - 1] == expn[expn.len() - 1]);
                                            assert(!spec_exact_compile(expf, root));
                                        },
                                        None => {},
                                    }
                                }
                                return Err(e);
                            },
                        }
                    },
                    None => {
                        proof {
                            assert(spec_expected_exact(rnext) == spec_expected_exact(racc));
                            racc = rnext;
                        }
                    },
                }
            },
        }
        i = i + 1;
    }
    proof {
        assert(entries.take(entries.len() as int) =~= entries);
    }
    match &responses.default {
        None => Ok(rv),
        Some(entry) => {
            let m = match resolve_response(entry, doc) {
                Ok(m) => m,
                Err(e) => {
                    return Err(e);
                },
            };
            match extract_json_schema(&m.content) {
                Some(schema) => {
                    let ghost oldexact = rv.spec_exact();
                    match rv.set_default(schema, registry) {
                        Ok(()) => Ok(rv),
                        Err(e) => Err(e),
                    }
                },
                None => Ok(rv),
            }
        },
    }
}

/// Whether one operation builds: its parameters resolve and compile, its
/// request body (if any) builds, and its response set builds.
pub open spec fn spec_op_build_ok(
    op: OperationModel,
    doc: ContractDoc,
    root: Option<serde_json::Value>,
) -> bool {
    &&& spec_resolve_params(op.parameters@, doc) matches Some(ms) && spec_params_compile(ms, root)
    &&& match op.request_body {
        None => true,
        Some(entry) => spec_body_build_ok(entry, doc, root),
    }
    &&& spec_responses_build_ok(op.responses, doc, root)
}

/// Whether a compiled operation validator is the compilation of one
/// operation.
pub open spec fn op_corresponds(
    ov: OperationValidator,
    op: OperationModel,
    doc: ContractDoc,
    root: Option<serde_json::Value>,
) -> bool {
    &&& spec_resolve_params(op.parameters@, doc) matches Some(ms) && params_correspond(
        ov.parameters.spec_path(),
        spec_filter_loc(ms, ParameterLocation::Path),
        root,
    ) && params_correspond(
        ov.parameters.spec_query(),
        spec_filter_loc(ms, ParameterLocation::Query),
        root,
    ) && params_correspond(
        ov.parameters.spec_header(),
        spec_filter_loc(ms, ParameterLocation::Header),
        root,
    )
    &&& match op.request_body {
        None => ov.request_body is None,
        Some(entry) => ov.request_body matches Some(bv) && body_corresponds(bv, entry, doc, root),
    }
    &&& responses_correspond(ov.responses, op.responses, doc, root)
}

/// Compiles one operation: its parameter set, its request body (if it has
/// one) and its response set, composed into one operation validator.
pub fn build_operation_validator(
    doc: &ContractDoc,
    registry: &SchemaRegistry,
    operation: &OperationModel,
) -> (r: Result<OperationValidator, ValidationError>)
    ensures
        ({
            let root = registry_root(*registry);
            match r {
                Ok(ov) => spec_op_build_ok(*operation, *doc, root) && op_corresponds(
                    ov,
                    *operation,
                    *doc,
                    root,
                ),
                Err(e) => e is SchemaCompilationError && !spec_op_build_ok(*operation, *doc, root),
            }
        }),
{
    let parameters = match build_parameters_validator(doc, registry, &operation.parameters) {
        Ok(p) => p,
        Err(e) => {
            return Err(e);
        },
    };
    let request_body = match &operation.request_body {
        None => None,
        Some(entry) => match build_request_body_validator(doc, registry, entry) {
            Ok(b) => Some(b),
            Err(e) => {
                return Err(e);
            },
        },
    };
    let responses = match build_response_validator(doc, registry, &operation.responses) {
        Ok(rv) => rv,
        Err(e) => {
            return Err(e);
        },
    };
    Ok(OperationValidator::new(request_body, responses, parameters))
}

/// Whether one path item builds: every method token parses, no method
/// appears twice, and every operation builds.
pub open spec fn spec_item_ok(
    item: PathItemModel,
    doc: ContractDoc,
    root: Option<serde_json::Value>,
) -> bool {
    &&& forall|k: int|
        0 <= k < item.operations@.len() ==> spec_parse_method(
            (#[trigger] item.operations@[k]).0@,
        ) is Some && spec_op_build_ok(item.operations@[k].1, doc, root)
    &&& forall|k: int, l: int|
        0 <= k < l < item.operations@.len() ==> spec_parse_method(
            (#[trigger] item.operations@[k]).0@,
        ) != spec_parse_method((#[trigger] item.operations@[l]).0@)
}

/// Whether one registered route's operation map is the compilation of one
/// path item, in order.
pub open spec fn route_ops_correspond(
    ops: Seq<(HttpMethod, OperationValidator)>,
    item: PathItemModel,
    doc: ContractDoc,
    root: Option<serde_json::Value>,
) -> bool {
    ops.len() == item.operations@.len() && (forall|k: int|
        0 <= k < ops.len() ==> Some((#[trigger] ops[k]).0) == spec_parse_method(
            item.operations@[k].0@,
        ) && op_corresponds(ops[k].1, item.operations@[k].1, doc, root))
}

/// The registry document a contract's schemas compile under.
pub open spec fn spec_doc_root(doc: ContractDoc) -> Option<serde_json::Value> {
    doc.components_json
}

/// Whether a whole contract builds: every path entry is inline, every
/// pattern parses, no two patterns claim the same paths, and every path
/// item builds.
pub open spec fn spec_doc_build_ok(doc: ContractDoc) -> bool {
    let root = spec_doc_root(doc);
    &&& forall|i: int| 0 <= i < doc.paths@.len() ==> (#[trigger] doc.paths@[i]).1 is Inline
    &&& forall|i: int|
        0 <= i < doc.paths@.len() ==> spec_parse_pattern((#[trigger] doc.paths@[i]).0@) is Some
    &&& forall|i: int, j: int|
        0 <= i < j < doc.paths@.len() ==> !spec_same_shape(
            spec_parse_pattern((#[trigger] doc.paths@[i]).0@).unwrap(),
            spec_parse_pattern((#[trigger] doc.paths@[j]).0@).unwrap(),
        )
    &&& forall|i: int|
        0 <= i < doc.paths@.len() ==> ((#[trigger] doc.paths@[i]).1 matches RefOr::Inline(item)
            ==> spec_item_ok(item, doc, root))
}

/// Whether a built route index is the compilation of a whole contract: one
/// route per path, in document order, each carrying its parsed pattern and
/// its compiled operations.
pub open spec fn api_corresponds(api: ApiValidator, doc: ContractDoc) -> bool {
    let root = spec_doc_root(doc);
    api.spec_routes().len() == doc.paths@.len() && (forall|i: int|
        0 <= i < doc.paths@.len() ==> ((#[trigger] api.spec_routes()[i]).pattern
            == spec_parse_pattern(doc.paths@[i].0@).unwrap() && (doc.paths@[i].1 matches
        RefOr::Inline(item) && route_ops_correspond(api.spec_routes()[i].ops, item, doc, root))))
}

/// The start of a failed operation build's message: it names the offending
/// method token and path.
pub open spec fn spec_operation_error_prefix(method_token: Seq<char>, path: Seq<char>) -> Seq<
    char,
> {
    "Failed to build operation '"@ + method_token + "' at path '"@ + path + "': "@
}

/// Whether a path item holds an operation under an unknown method token,
/// and the message names that token.
pub open spec fn spec_unknown_method_located(m: Seq<char>, item: PathItemModel) -> bool {
    exists|k: int|
        0 <= k < item.operations@.len() && spec_parse_method(
            (#[trigger] item.operations@[k]).0@,
        ) is None && m == "Unknown HTTP method: "@ + item.operations@[k].0@
}

/// Whether a path item holds an operation that fails to build, and the
/// message starts by naming that operation's method token and path.
pub open spec fn spec_operation_failure_located(
    m: Seq<char>,
    item: PathItemModel,
    path: Seq<char>,
    doc: ContractDoc,
    root: Option<serde_json::Value>,
) -> bool {
    exists|k: int|
        0 <= k < item.operations@.len() && !spec_op_build_ok(
            (#[trigger] item.operations@[k]).1,
            doc,
            root,
        ) && spec_has_prefix(m, spec_operation_error_prefix(item.operations@[k].0@, path))
}

/// Whether two operations of a path item carry the same (known) method.
pub open spec fn spec_duplicate_method_in(item: PathItemModel) -> bool {
    exists|k: int, l: int|
        0 <= k < l < item.operations@.len() && spec_parse_method(
            (#[trigger] item.operations@[k]).0@,
        ) == spec_parse_method((#[trigger] item.operations@[l]).0@) && spec_parse_method(
            item.operations@[k].0@,
        ) is Some
}

/// Whether a build failure's message locates a defect the document really
/// has: the path whose entry is a reference, the unknown method token, the
/// operation that failed to build (named with its method token and path), or
/// the rejected route registration (named with its path and reason).
pub open spec fn spec_build_error_located(m: Seq<char>, doc: ContractDoc) -> bool {
    ||| (exists|i: int|
        0 <= i < doc.paths@.len() && !((#[trigger] doc.paths@[i]).1 is Inline) && m
            == "Path references are not supported: "@ + doc.paths@[i].0@)
    ||| (exists|i: int|
        (#[trigger] doc.paths@[i]).1 matches RefOr::Inline(item) && 0 <= i < doc.paths@.len()
            && spec_unknown_method_located(m, item))
    ||| (exists|i: int|
        (#[trigger] doc.paths@[i]).1 matches RefOr::Inline(item) && 0 <= i < doc.paths@.len()
            && spec_operation_failure_located(m, item, doc.paths@[i].0@, doc, spec_doc_root(doc)))
    ||| (exists|i: int|
        0 <= i < doc.paths@.len() && spec_parse_pattern((#[trigger] doc.paths@[i]).0@) is None && m
            == spec_route_error_message(doc.paths@[i].0@, "invalid pattern"@))
    ||| (exists|i: int|
        (#[trigger] doc.paths@[i]).1 matches RefOr::Inline(item) && 0 <= i < doc.paths@.len()
            && spec_duplicate_method_in(item) && m == spec_route_error_message(
            doc.paths@[i].0@,
            "a method is registered twice"@,
        ))
    ||| (exists|i: int, j: int|
        0 <= j < i < doc.paths@.len() && spec_same_shape(
            spec_parse_pattern((#[trigger] doc.paths@[j]).0@).unwrap(),
            spec_parse_pattern((#[trigger] doc.paths@[i]).0@).unwrap(),
        ) && m == spec_route_error_message(
            doc.paths@[i].0@,
            "another route claims the same paths"@,
        ))
}

/// Compiles a whole contract into a route index. The build is sequential
/// and all-or-nothing: the first defect — a path-level reference (which is
/// unsupported and rejected), an unknown method token, an unresolved
/// reference, a content-based parameter, a schema that does not compile, a
/// malformed or conflicting route pattern, a method registered twice —
/// fails it with a message locating the defect, and no partial index is
/// returned.
pub fn build_api_validator(doc: &ContractDoc) -> (r: Result<ApiValidator, ValidationError>)
    ensures
        r is Ok <==> spec_doc_build_ok(*doc),
        r matches Ok(api) ==> api_corresponds(api, *doc),
        r matches Err(e) ==> (e matches ValidationError::SchemaCompilationError(m)
            && spec_build_error_located(m@, *doc)),
{
    let components_ref = match &doc.components_json {
        Some(c) => Some(c),
        None => None,
    };
    let registry = match build_registry(components_ref) {
        Ok(reg) => reg,
        Err(e) => {
            return Err(e);
        },
    };
    let ghost root = spec_doc_root(*doc);
    proof {
        assert(registry_root(registry) == root);
    }
    let mut api = ApiValidator::new();
    let mut i: usize = 0;
    while i < doc.paths.len()
        invariant
            i <= doc.paths@.len(),
            root == spec_doc_root(*doc),
            registry_root(registry) == root,
            api.spec_routes().len() == i,
            forall|k: int| 0 <= k < i ==> (#[trigger] doc.paths@[k]).1 is Inline,
            forall|k: int|
                0 <= k < i ==> spec_parse_pattern((#[trigger] doc.paths@[k]).0@) is Some,
            forall|k: int, l: int|
                0 <= k < l < i ==> !spec_same_shape(
                    spec_parse_pattern((#[trigger] doc.paths@[k]).0@).unwrap(),
                    spec_parse_pattern((#[trigger] doc.paths@[l]).0@).unwrap(),
                ),
            forall|k: int|
                0 <= k < i ==> ((#[trigger] doc.paths@[k]).1 matches RefOr::Inline(item)
                    ==> spec_item_ok(item, *doc, root)),
            forall|k: int|
                0 <= k < i ==> ((#[trigger] api.spec_routes()[k]).pattern == spec_parse_pattern(
                    doc.paths@[k].0@,
                ).unwrap() && (doc.paths@[k].1 matches RefOr::Inline(item) && route_ops_correspond(
                    api.spec_routes()[k].ops,
                    item,
                    *doc,
                    root,
                ))),
        decreases doc.paths@.len() - i,
    {
        let item = match &doc.paths[i].1 {
            RefOr::Inline(item) => item,
            RefOr::Reference(_) => {
                let mut m = String::new();
                m.append("Path references are not supported: ");
                m.append(doc.paths[i].0.as_str());
                proof {
                    assert(!((doc.paths@[i as int]).1 is Inline));
                    assert(m@ =~= "Path references are not supported: "@
                        + doc.paths@[i as int].0@);
                    assert(spec_build_error_located(m@, *doc));
                }
                return Err(ValidationError::SchemaCompilationError(m));
            },
        };
        let mut ops: Vec<(HttpMethod, OperationValidator)> = Vec::new();
        let mut k: usize = 0;
        while k < item.operations.len()
            invariant
                k <= item.operations@.len(),
                root == spec_doc_root(*doc),
                registry_root(registry) == root,
                i < doc.paths@.len(),
                doc.paths@[i as int].1 is Inline,
                doc.paths@[i as int].1->Inline_0 == *item,
                ops@.len() == k,
                forall|t: int|
                    0 <= t < k ==> Some((#[trigger] ops@[t]).0) == spec_parse_method(
                        item.operations@[t].0@,
                    ) && op_corresponds(ops@[t].1, item.operations@[t].1, *doc, root),
                forall|t: int|
                    0 <= t < k ==> spec_parse_method((#[trigger] item.operations@[t]).0@) is Some
                        && spec_op_build_ok(item.operations@[t].1, *doc, root),
            decreases item.operations@.len() - k,
        {
            let method = match HttpMethod::parse(item.operations[k].0.as_str()) {
                Some(m) => m,
                None => {
                    let mut msg = String::new();
                    msg.append("Unknown HTTP method: ");
                    msg.append(item.operations[k].0.as_str());
                    proof {
                        assert(spec_parse_method(item.operations@[k as int].0@) is None);
                        assert(!spec_item_ok(*item, *doc, root));
                        assert(!spec_doc_build_ok(*doc));
                        assert(doc.paths@[i as int].1 is Inline);
                        assert(msg@ =~= "Unknown HTTP method: "@
                            + item.operations@[k as int].0@);
                        assert(spec_build_error_located(msg@, *doc));
                    }
                    return Err(ValidationError::SchemaCompilationError(msg));
                },
            };
            let ov = match build_operation_validator(doc, &registry, &item.operations[k].1) {
                Ok(ov) => ov,
                Err(e) => {
                    let inner = match e {
                        ValidationError::SchemaCompilationError(m) => m,
                        _ => String::new(),
                    };
                    let mut msg = String::new();
                    msg.append("Failed to build operation '");
                    msg.append(item.operations[k].0.as_str());
                    msg.append("' at path '");
                    msg.append(doc.paths[i].0.as_str());
                    msg.append("': ");
                    msg.append(inner.as_str());
                    proof {
                        assert(!spec_op_build_ok(item.operations@[k as int].1, *doc, root));
                        assert(!spec_item_ok(*item, *doc, root));
                        assert(!spec_doc_build_ok(*doc));
                        assert(doc.paths@[i as int].1 is Inline);
                        let prefix = spec_operation_error_prefix(
                            item.operations@[k as int].0@,
                            doc.paths@[i as int].0@,
                        );
                        assert(msg@ =~= prefix + inner@);
                        assert(msg@.subrange(0, prefix.len() as int) =~= prefix);
                        assert(spec_build_error_located(msg@, *doc));
                    }
                    return Err(ValidationError::SchemaCompilationError(msg));
                },
            };
            ops.push((method, ov));
            k = k + 1;
        }
        let ghost opsv = ops@;
        let ghost oldroutes = api.spec_routes();
        match api.add_path_operations(doc.paths[i].0.as_str(), ops) {
            Ok(()) => {
                proof {
                    assert forall|t: int, u: int|
                        0 <= t < u < item.operations@.len() implies spec_parse_method(
                        (#[trigger] item.operations@[t]).0@,
                    ) != spec_parse_method((#[trigger] item.operations@[u]).0@) by {
                        assert(Some(opsv[t].0) == spec_parse_method(item.operations@[t].0@));
                        assert(Some(opsv[u].0) == spec_parse_method(item.operations@[u].0@));
                        assert(opsv[t].0 != opsv[u].0);
                    }
                    assert(spec_item_ok(*item, *doc, root));
                    assert forall|t: int| 0 <= t < i implies !spec_same_shape(
                        spec_parse_pattern((doc.paths@[t]).0@).unwrap(),
                        spec_parse_pattern((doc.paths@[i as int]).0@).unwrap(),
                    ) by {
                        assert(oldroutes[t].pattern == spec_parse_pattern(
                            doc.paths@[t].0@,
                        ).unwrap());
                    }
                }
            },
            Err(e) => {
                proof {
                    let segs = spec_parse_pattern(doc.paths@[i as int].0@);
                    match &e {
                        ValidationError::SchemaCompilationError(m) => {
                            if segs is None {
                                assert(!spec_doc_build_ok(*doc));
                                assert(m@ == spec_route_error_message(
                                    doc.paths@[i as int].0@,
                                    "invalid pattern"@,
                                ));
                                assert(spec_build_error_located(m@, *doc));
                            } else if !crate::api_validator::spec_methods_distinct(opsv) {
                                let (t, u) = choose|t: int, u: int|
                                    0 <= t < u < opsv.len() && (opsv[t]).0 == (opsv[u]).0;
                                assert(Some(opsv[t].0) == spec_parse_method(
                                    item.operations@[t].0@,
                                ));
                                assert(Some(opsv[u].0) == spec_parse_method(
                                    item.operations@[u].0@,
                                ));
                                assert(!spec_item_ok(*item, *doc, root));
                                assert(!spec_doc_build_ok(*doc));
                                assert(doc.paths@[i as int].1 is Inline);
                                assert(m@ == spec_route_error_message(
                                    doc.paths@[i as int].0@,
                                    "a method is registered twice"@,
                                ));
                                assert(spec_build_error_located(m@, *doc));
                            } else {
                                let j = choose|j: int|
                                    0 <= j < oldroutes.len() && spec_same_shape(
                                        (oldroutes[j]).pattern,
                                        segs.unwrap(),
                                    );
                                assert(oldroutes[j].pattern == spec_parse_pattern(
                                    doc.paths@[j].0@,
                                ).unwrap());
                                assert(!spec_doc_build_ok(*doc));
                                assert(m@ == spec_route_error_message(
                                    doc.paths@[i as int].0@,
                                    "another route claims the same paths"@,
                                ));
                                assert(spec_build_error_located(m@, *doc));
                            }
                        },
                        _ => {
                            assert(false);
                        },
                    }
                }
                return Err(e);
            },
        }
        i = i + 1;
    }
    proof {
        assert(spec_doc_build_ok(*doc));
        assert(api_corresponds(api, *doc));
    }
    Ok(api)
}

/// Whether every entry of one operation is inline: no operation-level
/// references.
pub open spec fn spec_op_no_refs(op: OperationModel) -> bool {
    &&& forall|i: int| 0 <= i < op.parameters@.len() ==> (#[trigger] op.parameters@[i]) is Inline
    &&& match op.request_body {
        None => true,
        Some(e) => e is Inline,
    }
    &&& forall|i: int|
        0 <= i < op.responses.responses@.len() ==> ((#[trigger] op.responses.responses@[i]).1)
            is Inline
    &&& match op.responses.default {
        None => true,
        Some(e) => e is Inline,
    }
}

/// Whether no operation of a path item holds a reference.
pub open spec fn spec_item_no_refs(item: PathItemModel) -> bool {
    forall|k: int|
        0 <= k < item.operations@.len() ==> spec_op_no_refs((#[trigger] item.operations@[k]).1)
}

/// Whether a contract holds no references at all: every path entry inline,
/// and every operation-level entry inline.
pub open spec fn spec_doc_no_refs(doc: ContractDoc) -> bool {
    forall|i: int|
        0 <= i < doc.paths@.len() ==> ((#[trigger] doc.paths@[i]).1 matches RefOr::Inline(item)
            && spec_item_no_refs(item))
}

/// The models of all-inline parameter entries.
pub open spec fn inline_params(params: Seq<RefOr<ParameterModel>>) -> Seq<ParameterModel> {
    params.map_values(|e: RefOr<ParameterModel>| e->Inline_0)
}

/// The (status code, model) pairs of all-inline response entries, ranges
/// skipped.
pub open spec fn inline_responses(rs: Seq<(StatusCodeModel, RefOr<ResponseModel>)>) -> Seq<
    (u16, ResponseModel),
>
    decreases rs.len(),
{
    if rs.len() == 0 {
        Seq::empty()
    } else {
        let rest = inline_responses(rs.drop_last());
        match rs.last().0 {
            StatusCodeModel::Range(_) => rest,
            StatusCodeModel::Code(c) => rest.push((c, rs.last().1->Inline_0)),
        }
    }
}

proof fn lemma_resolve_params_inline(params: Seq<RefOr<ParameterModel>>, doc: ContractDoc)
    requires
        forall|i: int| 0 <= i < params.len() ==> (#[trigger] params[i]) is Inline,
    ensures
        spec_resolve_params(params, doc) == Some(inline_params(params)),
    decreases params.len(),
{
    if params.len() == 0 {
        assert(inline_params(params) =~= Seq::<ParameterModel>::empty());
    } else {
        assert forall|i: int| 0 <= i < params.drop_last().len() implies (
        #[trigger] params.drop_last()[i]) is Inline by {
            assert(params.drop_last()[i] == params[i]);
        }
        lemma_resolve_params_inline(params.drop_last(), doc);
        assert(inline_params(params) =~= inline_params(params.drop_last()).push(
            params.last()->Inline_0,
        ));
    }
}

proof fn lemma_resolve_responses_inline(
    rs: Seq<(StatusCodeModel, RefOr<ResponseModel>)>,
    doc: ContractDoc,
)
    requires
        forall|i: int| 0 <= i < rs.len() ==> ((#[trigger] rs[i]).1) is Inline,
    ensures
        spec_resolve_responses(rs, doc) == Some(inline_responses(rs)),
    decreases rs.len(),
{
    if rs.len() > 0 {
        assert forall|i: int| 0 <= i < rs.drop_last().len() implies ((
        #[trigger] rs.drop_last()[i]).1) is Inline by {
            assert(rs.drop_last()[i] == rs[i]);
        }
        lemma_resolve_responses_inline(rs.drop_last(), doc);
    }
}

/// Whether every schema of one all-inline operation compiles on its own.
pub open spec fn spec_op_schemas_compile(
    op: OperationModel,
    root: Option<serde_json::Value>,
) -> bool {
    &&& spec_params_compile(inline_params(op.parameters@), root)
    &&& match op.request_body {
        None => true,
        Some(e) => (match spec_json_schema_of(e->Inline_0.content@) {
            Some(s) => schema_compiles(s, root),
            None => true,
        }),
    }
    &&& spec_exact_compile(spec_expected_exact(inline_responses(op.responses.responses@)), root)
    &&& match op.responses.default {
        None => true,
        Some(e) => (match spec_json_schema_of(e->Inline_0.content@) {
            Some(s) => schema_compiles(s, root),
            None => true,
        }),
    }
}

proof fn lemma_op_build_no_refs(op: OperationModel, doc: ContractDoc, root: Option<
    serde_json::Value,
>)
    requires
        spec_op_no_refs(op),
    ensures
        spec_op_build_ok(op, doc, root) <==> spec_op_schemas_compile(op, root),
{
    lemma_resolve_params_inline(op.parameters@, doc);
    lemma_resolve_responses_inline(op.responses.responses@, doc);
}

/// Whether a path item's routing shape is in order: every method token
/// parses and none appears twice.
pub open spec fn spec_item_methods_ok(item: PathItemModel) -> bool {
    &&& forall|k: int|
        0 <= k < item.operations@.len() ==> spec_parse_method(
            (#[trigger] item.operations@[k]).0@,
        ) is Some
    &&& forall|k: int, l: int|
        0 <= k < l < item.operations@.len() ==> spec_parse_method(
            (#[trigger] item.operations@[k]).0@,
        ) != spec_parse_method((#[trigger] item.operations@[l]).0@)
}

proof fn lemma_item_build_no_refs(item: PathItemModel, doc: ContractDoc, root: Option<
    serde_json::Value,
>)
    requires
        spec_item_no_refs(item),
        spec_item_methods_ok(item),
    ensures
        spec_item_ok(item, doc, root) <==> (forall|k: int|
            0 <= k < item.operations@.len() ==> spec_op_schemas_compile(
                (#[trigger] item.operations@[k]).1,
                root,
            )),
{
    assert forall|k: int| 0 <= k < item.operations@.len() implies (spec_op_build_ok(
        (#[trigger] item.operations@[k]).1,
        doc,
        root,
    ) <==> spec_op_schemas_compile(item.operations@[k].1, root)) by {
        lemma_op_build_no_refs(item.operations@[k].1, doc, root);
    }
}

/// Whether every schema of an all-inline contract compiles on its own.
pub open spec fn spec_doc_schemas_compile(doc: ContractDoc) -> bool {
    forall|i: int|
        0 <= i < doc.paths@.len() ==> ((#[trigger] doc.paths@[i]).1 matches RefOr::Inline(item)
            ==> (forall|k: int|
            0 <= k < item.operations@.len() ==> spec_op_schemas_compile(
                (#[trigger] item.operations@[k]).1,
                spec_doc_root(doc),
            )))
}

/// For a contract with no shared components section and no references at
/// all, whose routing shape is itself in order — every pattern parses, no
/// two patterns claim the same paths, every method token parses and none
/// appears twice — the build succeeds exactly when every schema in it is
/// independently well-formed.
pub proof fn lemma_build_no_refs_iff(doc: ContractDoc)
    requires
        doc.components_json is None,
        spec_doc_no_refs(doc),
        forall|i: int|
            0 <= i < doc.paths@.len() ==> spec_parse_pattern((#[trigger] doc.paths@[i]).0@) is Some,
        forall|i: int, j: int|
            0 <= i < j < doc.paths@.len() ==> !spec_same_shape(
                spec_parse_pattern((#[trigger] doc.paths@[i]).0@).unwrap(),
                spec_parse_pattern((#[trigger] doc.paths@[j]).0@).unwrap(),
            ),
        forall|i: int|
            0 <= i < doc.paths@.len() ==> ((#[trigger] doc.paths@[i]).1 matches RefOr::Inline(item)
                ==> spec_item_methods_ok(item)),
    ensures
        spec_doc_build_ok(doc) <==> spec_doc_schemas_compile(doc),
{
    let root = spec_doc_root(doc);
    if spec_doc_build_ok(doc) {
        assert forall|i: int| 0 <= i < doc.paths@.len() implies ((
        #[trigger] doc.paths@[i]).1 matches RefOr::Inline(item) ==> (forall|k: int|
            0 <= k < item.operations@.len() ==> spec_op_schemas_compile(
                (#[trigger] item.operations@[k]).1,
                root,
            ))) by {
            if doc.paths@[i].1 is Inline {
                lemma_item_build_no_refs(doc.paths@[i].1->Inline_0, doc, root);
            }
        }
        assert(spec_doc_schemas_compile(doc));
    }
    if spec_doc_schemas_compile(doc) {
        assert forall|i: int| 0 <= i < doc.paths@.len() implies ((
        #[trigger] doc.paths@[i]).1 matches RefOr::Inline(item) ==> spec_item_ok(
            item,
            doc,
            root,
        )) by {
            if doc.paths@[i].1 is Inline {
                lemma_item_build_no_refs(doc.paths@[i].1->Inline_0, doc, root);
            }
        }
        assert(spec_doc_build_ok(doc));
    }
}

} // verus!
