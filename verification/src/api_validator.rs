//! The route index: HTTP methods, per-operation validators, and the
//! top-level validator that maps a concrete path and method to the operation
//! registered for them, extracting named path parameters on the way.

use vstd::prelude::*;
use vstd::string::StringExecFns;
use crate::error::ValidationError;
use crate::route_match::{
    extract_params, parse_seg, pattern_matches, more_specific, same_shape, spec_extract_params,
    spec_more_specific, spec_parse_seg, spec_pattern_matches, spec_same_shape, spec_split_path,
    split_path, PatternSeg, SegModel,
};
use crate::strutil::str_to_chars;
use crate::validators::{ParametersValidator, RequestBodyValidator, ResponseValidator};

verus! {

/// The HTTP methods a contract may key its operations by.
#[derive(Clone, Copy, Debug, PartialEq, Eq, Hash, Structural)]
pub enum HttpMethod {
    GET,
    POST,
    PUT,
    DELETE,
    PATCH,
    HEAD,
    OPTIONS,
    TRACE,
}

/// A lower-case ASCII letter raised to upper case; any other character
/// unchanged.
pub open spec fn spec_upper_char(c: char) -> char {
    if 'a' <= c && c <= 'z' {
        (((c as u32) - 32) as u8) as char
    } else {
        c
    }
}

/// A character sequence raised to upper case, ASCII-wise.
pub open spec fn spec_upper_seq(s: Seq<char>) -> Seq<char> {
    s.map_values(|c: char| spec_upper_char(c))
}

/// What parsing a method token yields: tokens are read case-insensitively,
/// anything but the eight known methods is unknown.
pub open spec fn spec_parse_method(s: Seq<char>) -> Option<HttpMethod> {
    let u = spec_upper_seq(s);
    if u == "GET"@ {
        Some(HttpMethod::GET)
    } else if u == "POST"@ {
        Some(HttpMethod::POST)
    } else if u == "PUT"@ {
        Some(HttpMethod::PUT)
    } else if u == "DELETE"@ {
        Some(HttpMethod::DELETE)
    } else if u == "PATCH"@ {
        Some(HttpMethod::PATCH)
    } else if u == "HEAD"@ {
        Some(HttpMethod::HEAD)
    } else if u == "OPTIONS"@ {
        Some(HttpMethod::OPTIONS)
    } else if u == "TRACE"@ {
        Some(HttpMethod::TRACE)
    } else {
        None
    }
}

fn upper_char(c: char) -> (r: char)
    ensures
        r == spec_upper_char(c),
{
    if 'a' <= c && c <= 'z' {
        (((c as u32) - 32) as u8) as char
    } else {
        c
    }
}

fn upper_chars(chars: &Vec<char>) -> (r: Vec<char>)
    ensures
        r@ == spec_upper_seq(chars@),
{
    let mut out: Vec<char> = Vec::new();
    let mut i: usize = 0;
    while i < chars.len()
        invariant
            i <= chars.len(),
            out@ == spec_upper_seq(chars@.take(i as int)),
        decreases chars.len() - i,
    {
        out.push(upper_char(chars[i]));
        proof {
            assert(out@ =~= spec_upper_seq(chars@.take(i + 1)));
        }
        i = i + 1;
    }
    proof {
        assert(chars@.take(chars@.len() as int) =~= chars@);
    }
    out
}

fn chars_eq_token(chars: &Vec<char>, token: &str) -> (r: bool)
    ensures
        r == (chars@ == token@),
{
    let t = str_to_chars(token);
    crate::route_match::chars_eq(chars, &t)
}

impl HttpMethod {
    /// The method's token.
    pub open spec fn spec_name(self) -> Seq<char> {
        match self {
            HttpMethod::GET => "GET"@,
            HttpMethod::POST => "POST"@,
            HttpMethod::PUT => "PUT"@,
            HttpMethod::DELETE => "DELETE"@,
            HttpMethod::PATCH => "PATCH"@,
            HttpMethod::HEAD => "HEAD"@,
            HttpMethod::OPTIONS => "OPTIONS"@,
            HttpMethod::TRACE => "TRACE"@,
        }
    }

    /// The method's token.
    pub fn as_str(&self) -> (r: &'static str)
        ensures
            r@ == self.spec_name(),
    {
        match self {
            HttpMethod::GET => "GET",
            HttpMethod::POST => "POST",
            HttpMethod::PUT => "PUT",
            HttpMethod::DELETE => "DELETE",
            HttpMethod::PATCH => "PATCH",
            HttpMethod::HEAD => "HEAD",
            HttpMethod::OPTIONS => "OPTIONS",
            HttpMethod::TRACE => "TRACE",
        }
    }

    /// Reads a method token, case-insensitively. An unknown token yields
    /// nothing — and fails a contract build.
    pub fn parse(s: &str) -> (r: Option<HttpMethod>)
        ensures
            r == spec_parse_method(s@),
    {
        let chars = str_to_chars(s);
        let u = upper_chars(&chars);
        if chars_eq_token(&u, "GET") {
            Some(HttpMethod::GET)
        } else if chars_eq_token(&u, "POST") {
            Some(HttpMethod::POST)
        } else if chars_eq_token(&u, "PUT") {
            Some(HttpMethod::PUT)
        } else if chars_eq_token(&u, "DELETE") {
            Some(HttpMethod::DELETE)
        } else if chars_eq_token(&u, "PATCH") {
            Some(HttpMethod::PATCH)
        } else if chars_eq_token(&u, "HEAD") {
            Some(HttpMethod::HEAD)
        } else if chars_eq_token(&u, "OPTIONS") {
            Some(HttpMethod::OPTIONS)
        } else if chars_eq_token(&u, "TRACE") {
            Some(HttpMethod::TRACE)
        } else {
            None
        }
    }
}

/// Validator for a single operation: one path and method pair. A pure
/// composition of the parameter set, request body and response validators;
/// created once at build time and immutable thereafter.
pub struct OperationValidator {
    pub request_body: Option<RequestBodyValidator>,
    pub responses: ResponseValidator,
    pub parameters: ParametersValidator,
}

impl OperationValidator {
    /// Composes the three validators of one operation.
    pub fn new(
        request_body: Option<RequestBodyValidator>,
        responses: ResponseValidator,
        parameters: ParametersValidator,
    ) -> (r: Self)
        ensures
            r.request_body == request_body,
            r.responses == responses,
            r.parameters == parameters,
    {
        OperationValidator { request_body, responses, parameters }
    }
}

/// One registered route: a parsed pattern and the operations under it,
/// keyed by method.
pub struct RouteEntry {
    segs: Vec<PatternSeg>,
    ops: Vec<(HttpMethod, OperationValidator)>,
}

/// The mathematical content of a `RouteEntry`.
pub ghost struct RouteModel {
    pub pattern: Seq<SegModel>,
    pub ops: Seq<(HttpMethod, OperationValidator)>,
}

impl View for RouteEntry {
    type V = RouteModel;

    closed spec fn view(&self) -> RouteModel {
        RouteModel { pattern: self.segs@.map_values(|s: PatternSeg| s@), ops: self.ops@ }
    }
}

/// The operation registered under a method: the first entry wins, and
/// registration rejects duplicates.
pub open spec fn spec_method_get(
    ops: Seq<(HttpMethod, OperationValidator)>,
    m: HttpMethod,
) -> Option<OperationValidator>
    decreases ops.len(),
{
    if ops.len() == 0 {
        None
    } else if ops[0].0 == m {
        Some(ops[0].1)
    } else {
        spec_method_get(ops.drop_first(), m)
    }
}

/// Whether no method appears twice in an operation map.
pub open spec fn spec_methods_distinct(ops: Seq<(HttpMethod, OperationValidator)>) -> bool {
    forall|i: int, j: int| 0 <= i < j < ops.len() ==> (#[trigger] ops[i]).0 != (#[trigger] ops[j]).0
}

/// What parsing a whole route pattern yields: every piece must read as a
/// segment, and no two parameters may share a name.
pub open spec fn spec_parse_pattern(s: Seq<char>) -> Option<Seq<SegModel>> {
    let pieces = spec_split_path(s);
    if forall|i: int| 0 <= i < pieces.len() ==> (#[trigger] spec_parse_seg(pieces[i])) is Some {
        let segs = Seq::new(pieces.len(), |i: int| spec_parse_seg(pieces[i]).unwrap());
        if spec_params_distinct(segs) {
            Some(segs)
        } else {
            None
        }
    } else {
        None
    }
}

/// Whether no two parameter segments share a name.
pub open spec fn spec_params_distinct(segs: Seq<SegModel>) -> bool {
    forall|i: int, j: int|
        0 <= i < j < segs.len() && (#[trigger] segs[i]) is Param && (#[trigger] segs[j]) is Param
            ==> segs[i]->Param_0 != segs[j]->Param_0
}

/// The route selected for a path's pieces: among the matching patterns, the
/// most specific; among equally specific ones, the earliest registered.
pub open spec fn spec_best_match(routes: Seq<RouteModel>, pieces: Seq<Seq<char>>) -> Option<int>
    decreases routes.len(),
{
    if routes.len() == 0 {
        None
    } else {
        let rest = spec_best_match(routes.drop_last(), pieces);
        let n = routes.len() - 1;
        if spec_pattern_matches(routes[n].pattern, pieces) {
            match rest {
                None => Some(n),
                Some(i) => if spec_more_specific(routes[n].pattern, routes[i].pattern) {
                    Some(n)
                } else {
                    Some(i)
                },
            }
        } else {
            rest
        }
    }
}

/// A selected route really is a match: whenever the index selects a route
/// for a path's pieces, that route's pattern matches them.
pub proof fn lemma_best_match_is_match(routes: Seq<RouteModel>, pieces: Seq<Seq<char>>)
    ensures
        spec_best_match(routes, pieces) matches Some(i) ==> 0 <= i < routes.len()
            && spec_pattern_matches(routes[i].pattern, pieces),
    decreases routes.len(),
{
    if routes.len() > 0 {
        lemma_best_match_is_match(routes.drop_last(), pieces);
        match spec_best_match(routes.drop_last(), pieces) {
            Some(i) => {
                assert(routes.drop_last()[i] == routes[i]);
            },
            None => {},
        }
    }
}

/// A path no registered pattern matches selects no route.
pub proof fn lemma_best_match_none(routes: Seq<RouteModel>, pieces: Seq<Seq<char>>)
    requires
        forall|j: int|
            0 <= j < routes.len() ==> !spec_pattern_matches((#[trigger] routes[j]).pattern, pieces),
    ensures
        spec_best_match(routes, pieces) is None,
    decreases routes.len(),
{
    if routes.len() > 0 {
        assert forall|j: int| 0 <= j < routes.drop_last().len() implies !spec_pattern_matches(
            (#[trigger] routes.drop_last()[j]).pattern,
            pieces,
        ) by {
            assert(routes.drop_last()[j] == routes[j]);
        }
        lemma_best_match_none(routes.drop_last(), pieces);
    }
}

/// A path that matches exactly one registered pattern selects exactly that
/// route.
pub proof fn lemma_best_match_unique(routes: Seq<RouteModel>, pieces: Seq<Seq<char>>, i: int)
    requires
        0 <= i < routes.len(),
        spec_pattern_matches(routes[i].pattern, pieces),
        forall|j: int|
            0 <= j < routes.len() && j != i ==> !spec_pattern_matches(
                (#[trigger] routes[j]).pattern,
                pieces,
            ),
    ensures
        spec_best_match(routes, pieces) == Some(i),
    decreases routes.len(),
{
    if i == routes.len() - 1 {
        assert forall|j: int| 0 <= j < routes.drop_last().len() implies !spec_pattern_matches(
            (#[trigger] routes.drop_last()[j]).pattern,
            pieces,
        ) by {
            assert(routes.drop_last()[j] == routes[j]);
        }
        lemma_best_match_none(routes.drop_last(), pieces);
    } else {
        assert forall|j: int|
            0 <= j < routes.drop_last().len() && j != i implies !spec_pattern_matches(
            (#[trigger] routes.drop_last()[j]).pattern,
            pieces,
        ) by {
            assert(routes.drop_last()[j] == routes[j]);
        }
        assert(routes.drop_last()[i] == routes[i]);
        lemma_best_match_unique(routes.drop_last(), pieces, i);
    }
}

/// Some registered pattern matching the path means a route is selected.
pub proof fn lemma_best_match_some(routes: Seq<RouteModel>, pieces: Seq<Seq<char>>, j: int)
    requires
        0 <= j < routes.len(),
        spec_pattern_matches(routes[j].pattern, pieces),
    ensures
        spec_best_match(routes, pieces) is Some,
    decreases routes.len(),
{
    if j < routes.len() - 1 {
        assert(routes.drop_last()[j] == routes[j]);
        lemma_best_match_some(routes.drop_last(), pieces, j);
    }
}

/// Lookup is total under the most-specific-wins policy, with no assumption
/// that the match is unique: whenever some registered pattern matches the
/// path, the outcome is never "no route"; whatever route is selected really
/// matches, a found operation is the one registered under the method on that
/// route, and the parameters are extracted from that route's own pattern; a
/// "method not allowed" outcome likewise points at a matching route that has
/// no entry for the method.
pub proof fn lemma_lookup_selects_a_match(
    routes: Seq<RouteModel>,
    pieces: Seq<Seq<char>>,
    method: HttpMethod,
    j: int,
)
    requires
        0 <= j < routes.len(),
        spec_pattern_matches(routes[j].pattern, pieces),
    ensures
        !(spec_find(routes, pieces, method) is NoRoute),
        spec_find(routes, pieces, method) matches LookupOutcome::Found(i, params) ==> 0 <= i
            < routes.len() && spec_pattern_matches(routes[i].pattern, pieces) && params
            == spec_extract_params(routes[i].pattern, pieces) && spec_method_get(
            routes[i].ops,
            method,
        ) is Some,
        spec_find(routes, pieces, method) matches LookupOutcome::NoMethod(i) ==> 0 <= i
            < routes.len() && spec_pattern_matches(routes[i].pattern, pieces) && spec_method_get(
            routes[i].ops,
            method,
        ) is None,
{
    lemma_best_match_some(routes, pieces, j);
    lemma_best_match_is_match(routes, pieces);
}

/// Lookup is total on what was registered: a path that matches exactly one
/// registered pattern, with its method registered, finds exactly that
/// route's operation, with the pattern's named parameters extracted from the
/// matching pieces. (With several matching patterns the most specific wins;
/// the lemma above covers that case.)
pub proof fn lemma_lookup_total(
    routes: Seq<RouteModel>,
    pieces: Seq<Seq<char>>,
    method: HttpMethod,
    i: int,
)
    requires
        0 <= i < routes.len(),
        spec_pattern_matches(routes[i].pattern, pieces),
        forall|j: int|
            0 <= j < routes.len() && j != i ==> !spec_pattern_matches(
                (#[trigger] routes[j]).pattern,
                pieces,
            ),
        spec_method_get(routes[i].ops, method) is Some,
    ensures
        spec_find(routes, pieces, method) == LookupOutcome::Found(
            i,
            spec_extract_params(routes[i].pattern, pieces),
        ),
{
    lemma_best_match_unique(routes, pieces, i);
}

/// A path no registered pattern matches is a distinguishable "no route"
/// outcome.
pub proof fn lemma_lookup_no_route(
    routes: Seq<RouteModel>,
    pieces: Seq<Seq<char>>,
    method: HttpMethod,
)
    requires
        forall|j: int|
            0 <= j < routes.len() ==> !spec_pattern_matches((#[trigger] routes[j]).pattern, pieces),
    ensures
        spec_find(routes, pieces, method) == LookupOutcome::NoRoute,
{
    lemma_best_match_none(routes, pieces);
}

/// A path that matches one registered pattern, looked up with a method that
/// pattern has no entry for, is a distinguishable "method not allowed"
/// outcome.
pub proof fn lemma_lookup_method_not_allowed(
    routes: Seq<RouteModel>,
    pieces: Seq<Seq<char>>,
    method: HttpMethod,
    i: int,
)
    requires
        0 <= i < routes.len(),
        spec_pattern_matches(routes[i].pattern, pieces),
        forall|j: int|
            0 <= j < routes.len() && j != i ==> !spec_pattern_matches(
                (#[trigger] routes[j]).pattern,
                pieces,
            ),
        spec_method_get(routes[i].ops, method) is None,
    ensures
        spec_find(routes, pieces, method) == LookupOutcome::NoMethod(i),
{
    lemma_best_match_unique(routes, pieces, i);
}

/// The outcome of a route lookup.
pub ghost enum LookupOutcome {
    /// No registered pattern matches the path.
    NoRoute,
    /// The selected route (by index) has no entry for the method.
    NoMethod(int),
    /// The selected route (by index), with the path parameters its pattern
    /// extracts.
    Found(int, Seq<(Seq<char>, Seq<char>)>),
}

/// What looking up a path and method yields.
pub open spec fn spec_find(
    routes: Seq<RouteModel>,
    pieces: Seq<Seq<char>>,
    method: HttpMethod,
) -> LookupOutcome {
    match spec_best_match(routes, pieces) {
        None => LookupOutcome::NoRoute,
        Some(i) => if spec_method_get(routes[i].ops, method) is Some {
            LookupOutcome::Found(i, spec_extract_params(routes[i].pattern, pieces))
        } else {
            LookupOutcome::NoMethod(i)
        },
    }
}

/// The message of a lookup that found no route.
pub open spec fn spec_no_route_message(path: Seq<char>) -> Seq<char> {
    "No route found for path: "@ + path
}

/// The message of a lookup whose route has no entry for the method.
pub open spec fn spec_method_not_allowed_message(method: HttpMethod, path: Seq<char>) -> Seq<
    char,
> {
    "Method "@ + method.spec_name() + " not allowed for path: "@ + path
}

/// The message of a rejected route registration: it names the offending
/// path and the reason.
pub open spec fn spec_route_error_message(path: Seq<char>, reason: Seq<char>) -> Seq<char> {
    "Failed to add route '"@ + path + "': "@ + reason
}

/// The reason a route registration is rejected, checked in this order: a
/// pattern that does not parse, a method registered twice, a pattern that
/// claims the same paths as a registered one.
pub open spec fn spec_add_failure_reason(
    path: Seq<char>,
    operations: Seq<(HttpMethod, OperationValidator)>,
) -> Seq<char> {
    if spec_parse_pattern(path) is None {
        "invalid pattern"@
    } else if !spec_methods_distinct(operations) {
        "a method is registered twice"@
    } else {
        "another route claims the same paths"@
    }
}

/// Top-level validator: the index from route patterns to per-operation
/// validators. Built once from a contract; immutable thereafter.
pub struct ApiValidator {
    routes: Vec<RouteEntry>,
}

impl ApiValidator {
    /// The registered routes, in registration order.
    pub closed spec fn spec_routes(self) -> Seq<RouteModel> {
        self.routes@.map_values(|e: RouteEntry| e@)
    }

    /// An empty index: every lookup fails with "no route".
    pub fn new() -> (r: Self)
        ensures
            r.spec_routes() == Seq::<RouteModel>::empty(),
    {
        let r = ApiValidator { routes: Vec::new() };
        proof {
            assert(r.spec_routes() =~= Seq::<RouteModel>::empty());
        }
        r
    }

    /// Registers all operations of one path pattern at once. The pattern
    /// must parse, no already-registered pattern may claim the same paths,
    /// and no method may appear twice: re-registration is rejected, not
    /// overwritten.
    pub fn add_path_operations(
        &mut self,
        path: &str,
        operations: Vec<(HttpMethod, OperationValidator)>,
    ) -> (r: Result<(), ValidationError>)
        ensures
            r is Ok <==> (spec_parse_pattern(path@) is Some && spec_methods_distinct(operations@)
                && (forall|j: int|
                0 <= j < old(self).spec_routes().len() ==> !spec_same_shape(
                    (#[trigger] old(self).spec_routes()[j]).pattern,
                    spec_parse_pattern(path@).unwrap(),
                ))),
            r is Ok ==> final(self).spec_routes() == old(self).spec_routes().push(
                RouteModel { pattern: spec_parse_pattern(path@).unwrap(), ops: operations@ },
            ),
            r matches Err(e) ==> (e matches ValidationError::SchemaCompilationError(m) && m@
                == spec_route_error_message(path@, spec_add_failure_reason(path@, operations@))
                && *final(self) == *old(self)),
    {
        let segs = match Self::parse_pattern(path) {
            Some(segs) => segs,
            None => {
                return Err(ValidationError::SchemaCompilationError(
                    Self::route_error(path, "invalid pattern"),
                ));
            },
        };
        if !Self::methods_distinct(&operations) {
            return Err(ValidationError::SchemaCompilationError(
                Self::route_error(path, "a method is registered twice"),
            ));
        }
        let mut j: usize = 0;
        while j < self.routes.len()
            invariant
                j <= self.routes@.len(),
                spec_parse_pattern(path@) == Some(segs@.map_values(|s: PatternSeg| s@)),
                spec_methods_distinct(operations@),
                forall|k: int|
                    0 <= k < j ==> !spec_same_shape(
                        (#[trigger] self.spec_routes()[k]).pattern,
                        segs@.map_values(|s: PatternSeg| s@),
                    ),
            decreases self.routes@.len() - j,
        {
            proof {
                assert(self.spec_routes()[j as int] == self.routes@[j as int]@);
            }
            if same_shape(&self.routes[j].segs, &segs) {
                return Err(ValidationError::SchemaCompilationError(
                    Self::route_error(path, "another route claims the same paths"),
                ));
            }
            j = j + 1;
        }
        let ghost oldroutes = self.spec_routes();
        let ghost newmodel = RouteModel {
            pattern: segs@.map_values(|s: PatternSeg| s@),
            ops: operations@,
        };
        self.routes.push(RouteEntry { segs, ops: operations });
        proof {
            assert(self.routes@.last()@ == newmodel);
            assert(self.spec_routes() =~= oldroutes.push(newmodel));
        }
        Ok(())
    }

    fn route_error(path: &str, reason: &str) -> (r: String)
        ensures
            r@ == spec_route_error_message(path@, reason@),
    {
        let mut m = String::new();
        m.append("Failed to add route '");
        m.append(path);
        m.append("': ");
        m.append(reason);
        proof {
            assert(m@ =~= spec_route_error_message(path@, reason@));
        }
        m
    }

    fn methods_distinct(ops: &Vec<(HttpMethod, OperationValidator)>) -> (r: bool)
        ensures
            r == spec_methods_distinct(ops@),
    {
        let mut i: usize = 0;
        while i < ops.len()
            invariant
                i <= ops.len(),
                forall|a: int, b: int|
                    0 <= a < b < i ==> (#[trigger] ops@[a]).0 != (#[trigger] ops@[b]).0,
            decreases ops.len() - i,
        {
            let mut j: usize = 0;
            while j < i
                invariant
                    j <= i < ops.len(),
                    forall|a: int, b: int|
                        0 <= a < b < i ==> (#[trigger] ops@[a]).0 != (#[trigger] ops@[b]).0,
                    forall|a: int| 0 <= a < j ==> (#[trigger] ops@[a]).0 != ops@[i as int].0,
                decreases i - j,
            {
                if ops[j].0 == ops[i].0 {
                    return false;
                }
                j = j + 1;
            }
            i = i + 1;
        }
        true
    }

    /// Parses a route pattern into its segments.
    fn parse_pattern(path: &str) -> (r: Option<Vec<PatternSeg>>)
        ensures
            match r {
                Some(v) => spec_parse_pattern(path@) == Some(v@.map_values(|s: PatternSeg| s@)),
                None => spec_parse_pattern(path@) is None,
            },
    {
        let chars = str_to_chars(path);
        let pieces = split_path(&chars);
        let ghost pm = pieces@.map_values(|v: Vec<char>| v@);
        let mut segs: Vec<PatternSeg> = Vec::new();
        let mut i: usize = 0;
        while i < pieces.len()
            invariant
                i <= pieces.len(),
                pm == pieces@.map_values(|v: Vec<char>| v@),
                pm == spec_split_path(path@),
                segs@.len() == i,
                forall|k: int|
                    0 <= k < i ==> spec_parse_seg(pm[k]) == Some((#[trigger] segs@[k])@),
            decreases pieces.len() - i,
        {
            proof {
                assert(pm[i as int] == pieces@[i as int]@);
            }
            match parse_seg(&pieces[i]) {
                Some(seg) => {
                    segs.push(seg);
                },
                None => {
                    proof {
                        assert(spec_parse_seg(pm[i as int]) is None);
                    }
                    return None;
                },
            }
            i = i + 1;
        }
        // every piece parsed; check that no two parameters share a name
        let ghost sm = segs@.map_values(|s: PatternSeg| s@);
        proof {
            assert forall|k: int| 0 <= k < pm.len() implies (#[trigger] spec_parse_seg(
                pm[k],
            )) is Some by {
                assert(spec_parse_seg(pm[k]) == Some(segs@[k]@));
            }
            assert forall|k: int| 0 <= k < pm.len() implies #[trigger] sm[k] == spec_parse_seg(
                pm[k],
            ).unwrap() by {
                assert(spec_parse_seg(pm[k]) == Some(segs@[k]@));
            }
            assert(sm =~= Seq::new(pm.len(), |k: int| spec_parse_seg(pm[k]).unwrap()));
        }
        let mut a: usize = 0;
        while a < segs.len()
            invariant
                a <= segs.len(),
                sm == segs@.map_values(|s: PatternSeg| s@),
                pm == spec_split_path(path@),
                forall|k: int| 0 <= k < pm.len() ==> (#[trigger] spec_parse_seg(pm[k])) is Some,
                sm == Seq::new(pm.len(), |k: int| spec_parse_seg(pm[k]).unwrap()),
                forall|x: int, y: int|
                    0 <= x < y < a && (#[trigger] sm[x]) is Param && (#[trigger] sm[y]) is Param
                        ==> sm[x]->Param_0 != sm[y]->Param_0,
            decreases segs.len() - a,
        {
            let mut b: usize = 0;
            while b < a
                invariant
                    b <= a < segs.len(),
                    sm == segs@.map_values(|s: PatternSeg| s@),
                    pm == spec_split_path(path@),
                    forall|k: int| 0 <= k < pm.len() ==> (#[trigger] spec_parse_seg(pm[k])) is Some,
                    sm == Seq::new(pm.len(), |k: int| spec_parse_seg(pm[k]).unwrap()),
                    forall|x: int, y: int|
                        0 <= x < y < a && (#[trigger] sm[x]) is Param && (#[trigger] sm[y]) is Param
                            ==> sm[x]->Param_0 != sm[y]->Param_0,
                    forall|x: int|
                        0 <= x < b && (#[trigger] sm[x]) is Param && sm[a as int] is Param
                            ==> sm[x]->Param_0 != sm[a as int]->Param_0,
                decreases a - b,
            {
                proof {
                    assert(sm[a as int] == segs@[a as int]@);
                    assert(sm[b as int] == segs@[b as int]@);
                }
                let dup = match (&segs[b], &segs[a]) {
                    (PatternSeg::Param(nb), PatternSeg::Param(na)) => crate::route_match::chars_eq(
                        nb,
                        na,
                    ),
                    _ => false,
                };
                if dup {
                    proof {
                        assert(sm[b as int] is Param && sm[a as int] is Param
                            && sm[b as int]->Param_0 == sm[a as int]->Param_0);
                        assert(!spec_params_distinct(sm));
                    }
                    return None;
                }
                b = b + 1;
            }
            a = a + 1;
        }
        Some(segs)
    }

    fn best_match(&self, pieces: &Vec<Vec<char>>) -> (r: Option<usize>)
        ensures
            match r {
                Some(i) => i < self.spec_routes().len() && spec_best_match(
                    self.spec_routes(),
                    pieces@.map_values(|v: Vec<char>| v@),
                ) == Some(i as int),
                None => spec_best_match(
                    self.spec_routes(),
                    pieces@.map_values(|v: Vec<char>| v@),
                ) is None,
            },
    {
        let ghost rm = self.spec_routes();
        let ghost pm = pieces@.map_values(|v: Vec<char>| v@);
        let mut best: Option<usize> = None;
        let mut i: usize = 0;
        proof {
            assert(rm.take(0) =~= Seq::<RouteModel>::empty());
        }
        while i < self.routes.len()
            invariant
                i <= self.routes@.len(),
                rm == self.spec_routes(),
                pm == pieces@.map_values(|v: Vec<char>| v@),
                rm.len() == self.routes@.len(),
                match best {
                    Some(b) => b < i && spec_best_match(rm.take(i as int), pm) == Some(b as int),
                    None => spec_best_match(rm.take(i as int), pm) is None,
                },
            decreases self.routes@.len() - i,
        {
            proof {
                assert(rm.take(i + 1).drop_last() =~= rm.take(i as int));
                assert(rm.take(i + 1).last() == rm[i as int]);
                assert(rm[i as int] == self.routes@[i as int]@);
            }
            if pattern_matches(&self.routes[i].segs, pieces) {
                match best {
                    None => {
                        best = Some(i);
                    },
                    Some(b) => {
                        proof {
                            assert(rm[b as int] == self.routes@[b as int]@);
                        }
                        if more_specific(&self.routes[i].segs, &self.routes[b].segs) {
                            best = Some(i);
                        }
                    },
                }
            }
            i = i + 1;
        }
        proof {
            assert(rm.take(rm.len() as int) =~= rm);
        }
        best
    }

    fn method_get<'a>(
        ops: &'a Vec<(HttpMethod, OperationValidator)>,
        method: HttpMethod,
    ) -> (r: Option<&'a OperationValidator>)
        ensures
            match r {
                Some(op) => spec_method_get(ops@, method) == Some(*op),
                None => spec_method_get(ops@, method) is None,
            },
    {
        proof {
            assert(ops@.skip(0) =~= ops@);
        }
        let mut i: usize = 0;
        while i < ops.len()
            invariant
                i <= ops.len(),
                spec_method_get(ops@, method) == spec_method_get(ops@.skip(i as int), method),
            decreases ops.len() - i,
        {
            proof {
                assert(ops@.skip(i as int)[0] == ops@[i as int]);
                assert(ops@.skip(i as int).drop_first() =~= ops@.skip(i + 1));
            }
            if ops[i].0 == method {
                return Some(&ops[i].1);
            }
            i = i + 1;
        }
        proof {
            assert(ops@.skip(ops@.len() as int) =~= Seq::<(HttpMethod, OperationValidator)>::empty());
        }
        None
    }

    /// Looks up the operation registered for a concrete path and method.
    /// A path no pattern matches is a "no route" error; a matched pattern
    /// without the method is a "method not allowed" error — two
    /// distinguishable kinds, both distinct from drift. On success the
    /// matched pattern's named parameters are extracted from the path.
    pub fn find_operation<'a>(&'a self, path: &str, method: HttpMethod) -> (r: Result<
        (&'a OperationValidator, Vec<(String, String)>),
        ValidationError,
    >)
        ensures
            ({
                let outcome = spec_find(self.spec_routes(), spec_split_path(path@), method);
                match outcome {
                    LookupOutcome::NoRoute => r matches Err(e) && e matches
                        ValidationError::RouteNotFound(m) && m@ == spec_no_route_message(path@),
                    LookupOutcome::NoMethod(i) => r matches Err(e) && e matches
                        ValidationError::MethodNotAllowed(m) && m@ == spec_method_not_allowed_message(
                        method,
                        path@,
                    ),
                    LookupOutcome::Found(i, params) => r matches Ok(p) && spec_method_get(
                        self.spec_routes()[i].ops,
                        method,
                    ) == Some(*p.0) && p.1@.map_values(|q: (String, String)| (q.0@, q.1@))
                        == params,
                }
            }),
    {
        let chars = str_to_chars(path);
        let pieces = split_path(&chars);
        match self.best_match(&pieces) {
            None => {
                let mut m = String::new();
                m.append("No route found for path: ");
                m.append(path);
                Err(ValidationError::RouteNotFound(m))
            },
            Some(i) => {
                proof {
                    assert(self.spec_routes()[i as int] == self.routes@[i as int]@);
                    lemma_best_match_is_match(
                        self.spec_routes(),
                        pieces@.map_values(|v: Vec<char>| v@),
                    );
                }
                match Self::method_get(&self.routes[i].ops, method) {
                    None => {
                        let mut m = String::new();
                        m.append("Method ");
                        m.append(method.as_str());
                        m.append(" not allowed for path: ");
                        m.append(path);
                        Err(ValidationError::MethodNotAllowed(m))
                    },
                    Some(op) => {
                        let params = extract_params(&self.routes[i].segs, &pieces);
                        Ok((op, params))
                    },
                }
            },
        }
    }
}

} // verus!
