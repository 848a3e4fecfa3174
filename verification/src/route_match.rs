//! The route pattern grammar and its matching semantics.
//!
//! A route pattern is a path whose segments are either literals or named
//! parameters written `{name}`. A concrete path matches a pattern when both
//! split into equally many segments on `/`, every literal segment is equal,
//! and every parameter segment faces a non-empty piece. Among several
//! matching patterns the most specific wins: walking the segments from the
//! left, a literal beats a parameter at the first position where they
//! differ.

use vstd::prelude::*;

verus! {

/// One segment of a route pattern.
pub enum PatternSeg {
    /// A fixed piece of the path.
    Literal(Vec<char>),
    /// A named parameter matching any single non-empty piece.
    Param(Vec<char>),
}

/// The mathematical content of a `PatternSeg`.
pub ghost enum SegModel {
    Literal(Seq<char>),
    Param(Seq<char>),
}

impl View for PatternSeg {
    type V = SegModel;

    open spec fn view(&self) -> SegModel {
        match self {
            PatternSeg::Literal(l) => SegModel::Literal(l@),
            PatternSeg::Param(n) => SegModel::Param(n@),
        }
    }
}

/// Splitting on `/`, walked from the left with the piece built so far.
pub open spec fn spec_split_loop(s: Seq<char>, cur: Seq<char>) -> Seq<Seq<char>>
    decreases s.len(),
{
    if s.len() == 0 {
        seq![cur]
    } else if s[0] == '/' {
        seq![cur] + spec_split_loop(s.drop_first(), Seq::empty())
    } else {
        spec_split_loop(s.drop_first(), cur.push(s[0]))
    }
}

/// The pieces of a path split on `/`. A path of n separators has n + 1
/// pieces; leading, trailing and doubled separators yield empty pieces.
pub open spec fn spec_split_path(s: Seq<char>) -> Seq<Seq<char>> {
    spec_split_loop(s, Seq::empty())
}

/// Splits a path into its pieces.
pub fn split_path(chars: &Vec<char>) -> (r: Vec<Vec<char>>)
    ensures
        r@.map_values(|v: Vec<char>| v@) == spec_split_path(chars@),
{
    let mut done: Vec<Vec<char>> = Vec::new();
    let mut cur: Vec<char> = Vec::new();
    let mut i: usize = 0;
    proof {
        assert(chars@.skip(0) =~= chars@);
        assert(done@.map_values(|v: Vec<char>| v@) + spec_split_loop(chars@, cur@)
            =~= spec_split_loop(chars@, cur@));
    }
    while i < chars.len()
        invariant
            i <= chars.len(),
            cur@.len() <= i,
            spec_split_path(chars@) == done@.map_values(|v: Vec<char>| v@) + spec_split_loop(
                chars@.skip(i as int),
                cur@,
            ),
        decreases chars.len() - i,
    {
        proof {
            assert(chars@.skip(i as int)[0] == chars@[i as int]);
            assert(chars@.skip(i as int).drop_first() =~= chars@.skip(i + 1));
        }
        let ghost donev = done@.map_values(|v: Vec<char>| v@);
        let ghost curv = cur@;
        let c = chars[i];
        if c == '/' {
            done.push(cur);
            cur = Vec::new();
            proof {
                assert(done@.map_values(|v: Vec<char>| v@) =~= donev.push(curv));
                assert(donev.push(curv) + spec_split_loop(chars@.skip(i + 1), cur@) =~= donev + (
                seq![curv] + spec_split_loop(chars@.skip(i + 1), Seq::empty())));
            }
        } else {
            cur.push(c);
        }
        i = i + 1;
    }
    proof {
        assert(chars@.skip(chars@.len() as int) =~= Seq::<char>::empty());
        assert(done@.map_values(|v: Vec<char>| v@).push(cur@) =~= done@.map_values(
            |v: Vec<char>| v@,
        ) + seq![cur@]);
    }
    let ghost donev = done@.map_values(|v: Vec<char>| v@);
    let ghost curv = cur@;
    done.push(cur);
    proof {
        assert(done@.map_values(|v: Vec<char>| v@) =~= donev.push(curv));
    }
    done
}

/// How one raw pattern piece reads: a `{name}` piece is a parameter with a
/// non-empty, brace-free name; a piece without braces is a literal; anything
/// else is malformed.
pub open spec fn spec_parse_seg(raw: Seq<char>) -> Option<SegModel> {
    if raw.len() >= 2 && raw[0] == '{' && raw.last() == '}' {
        let name = raw.subrange(1, raw.len() - 1);
        if name.len() > 0 && !name.contains('{') && !name.contains('}') {
            Some(SegModel::Param(name))
        } else {
            None
        }
    } else if raw.contains('{') || raw.contains('}') {
        None
    } else {
        Some(SegModel::Literal(raw))
    }
}

fn vec_contains_char(v: &Vec<char>, lo: usize, hi: usize, c: char) -> (r: bool)
    requires
        lo <= hi <= v@.len(),
    ensures
        r == v@.subrange(lo as int, hi as int).contains(c),
{
    let mut i: usize = lo;
    while i < hi
        invariant
            lo <= i <= hi <= v@.len(),
            !v@.subrange(lo as int, i as int).contains(c),
        decreases hi - i,
    {
        if v[i] == c {
            proof {
                assert(v@.subrange(lo as int, hi as int)[i - lo] == c);
            }
            return true;
        }
        proof {
            assert forall|k: int| 0 <= k < i + 1 - lo implies #[trigger] v@.subrange(
                lo as int,
                i + 1,
            )[k] != c by {
                if k < i - lo {
                    assert(v@.subrange(lo as int, i as int)[k] != c);
                }
            }
        }
        i = i + 1;
    }
    proof {
        assert(v@.subrange(lo as int, hi as int) =~= v@.subrange(lo as int, i as int));
    }
    false
}

/// Reads one raw pattern piece.
pub fn parse_seg(raw: &Vec<char>) -> (r: Option<PatternSeg>)
    ensures
        match r {
            Some(seg) => spec_parse_seg(raw@) == Some(seg@),
            None => spec_parse_seg(raw@) is None,
        },
{
    let n = raw.len();
    if n >= 2 && raw[0] == '{' && raw[n - 1] == '}' {
        if n == 2 || vec_contains_char(raw, 1, n - 1, '{') || vec_contains_char(raw, 1, n - 1, '}')
        {
            proof {
                assert(raw@.subrange(1, raw@.len() - 1).len() == 0 ==> raw@.len() == 2);
            }
            None
        } else {
            let mut name: Vec<char> = Vec::new();
            let mut i: usize = 1;
            while i < n - 1
                invariant
                    1 <= i <= n - 1,
                    n == raw@.len(),
                    name@ == raw@.subrange(1, i as int),
                decreases n - 1 - i,
            {
                name.push(raw[i]);
                proof {
                    assert(name@ =~= raw@.subrange(1, i + 1));
                }
                i = i + 1;
            }
            proof {
                assert(name@ == raw@.subrange(1, raw@.len() - 1));
            }
            Some(PatternSeg::Param(name))
        }
    } else {
        if vec_contains_char(raw, 0, n, '{') || vec_contains_char(raw, 0, n, '}') {
            proof {
                assert(raw@.subrange(0, raw@.len() as int) =~= raw@);
            }
            None
        } else {
            proof {
                assert(raw@.subrange(0, raw@.len() as int) =~= raw@);
            }
            Some(PatternSeg::Literal(raw.clone()))
        }
    }
}

/// Whether one pattern segment matches one concrete piece: a literal matches
/// its own text, a parameter matches any non-empty piece.
pub open spec fn spec_seg_matches(seg: SegModel, piece: Seq<char>) -> bool {
    match seg {
        SegModel::Literal(l) => l == piece,
        SegModel::Param(_) => piece.len() > 0,
    }
}

/// Whether a pattern matches the pieces of a concrete path.
pub open spec fn spec_pattern_matches(segs: Seq<SegModel>, pieces: Seq<Seq<char>>) -> bool {
    segs.len() == pieces.len() && (forall|i: int|
        0 <= i < segs.len() ==> spec_seg_matches(#[trigger] segs[i], pieces[i]))
}

/// The parameters a matching pattern extracts from a path's pieces: one
/// (name, piece) pair per parameter segment, in pattern order.
pub open spec fn spec_extract_params(segs: Seq<SegModel>, pieces: Seq<Seq<char>>) -> Seq<
    (Seq<char>, Seq<char>),
>
    recommends
        segs.len() == pieces.len(),
    decreases segs.len(),
{
    if segs.len() == 0 {
        Seq::empty()
    } else {
        let rest = spec_extract_params(segs.drop_last(), pieces.drop_last());
        match segs.last() {
            SegModel::Param(name) => rest.push((name, pieces.last())),
            SegModel::Literal(_) => rest,
        }
    }
}

/// Extracts the named parameters a matching pattern binds from a path's
/// pieces.
pub fn extract_params(segs: &Vec<PatternSeg>, pieces: &Vec<Vec<char>>) -> (r: Vec<(String, String)>)
    requires
        segs@.len() == pieces@.len(),
    ensures
        r@.map_values(|q: (String, String)| (q.0@, q.1@)) == spec_extract_params(
            segs@.map_values(|s: PatternSeg| s@),
            pieces@.map_values(|v: Vec<char>| v@),
        ),
{
    let ghost sm = segs@.map_values(|s: PatternSeg| s@);
    let ghost pm = pieces@.map_values(|v: Vec<char>| v@);
    let mut out: Vec<(String, String)> = Vec::new();
    let mut i: usize = 0;
    while i < segs.len()
        invariant
            i <= segs.len(),
            sm == segs@.map_values(|s: PatternSeg| s@),
            pm == pieces@.map_values(|v: Vec<char>| v@),
            segs@.len() == pieces@.len(),
            out@.map_values(|q: (String, String)| (q.0@, q.1@)) == spec_extract_params(
                sm.take(i as int),
                pm.take(i as int),
            ),
        decreases segs.len() - i,
    {
        proof {
            assert(sm.take(i + 1).drop_last() =~= sm.take(i as int));
            assert(pm.take(i + 1).drop_last() =~= pm.take(i as int));
            assert(sm.take(i + 1).last() == sm[i as int]);
            assert(pm.take(i + 1).last() == pm[i as int]);
            assert(sm[i as int] == segs@[i as int]@);
            assert(pm[i as int] == pieces@[i as int]@);
        }
        match &segs[i] {
            PatternSeg::Param(name) => {
                let key = crate::strutil::chars_to_string(name);
                let value = crate::strutil::chars_to_string(&pieces[i]);
                out.push((key, value));
            },
            PatternSeg::Literal(_) => {},
        }
        proof {
            assert(out@.map_values(|q: (String, String)| (q.0@, q.1@)) =~= spec_extract_params(
                sm.take(i + 1),
                pm.take(i + 1),
            ));
        }
        i = i + 1;
    }
    proof {
        assert(sm.take(sm.len() as int) =~= sm);
        assert(pm.take(pm.len() as int) =~= pm);
    }
    out
}

/// Whether a pattern segment is a literal.
pub open spec fn spec_is_literal(seg: SegModel) -> bool {
    seg is Literal
}

/// Whether two patterns would claim the same paths: equally long, parameters
/// at the same positions, and equal literals elsewhere. Registering two
/// such patterns is a conflict.
pub open spec fn spec_same_shape(a: Seq<SegModel>, b: Seq<SegModel>) -> bool {
    a.len() == b.len() && (forall|i: int|
        0 <= i < a.len() ==> ((#[trigger] a[i]) is Literal <==> b[i] is Literal) && (a[i] is Literal
            ==> a[i]->Literal_0 == b[i]->Literal_0))
}

/// Whether pattern `a` is more specific than pattern `b`: at the first
/// position, walking from the left, where exactly one of them has a literal,
/// `a` is the one that does.
pub open spec fn spec_more_specific(a: Seq<SegModel>, b: Seq<SegModel>) -> bool
    decreases a.len(),
{
    if a.len() == 0 || b.len() == 0 {
        false
    } else if spec_is_literal(a[0]) && !spec_is_literal(b[0]) {
        true
    } else if !spec_is_literal(a[0]) && spec_is_literal(b[0]) {
        false
    } else {
        spec_more_specific(a.drop_first(), b.drop_first())
    }
}

fn is_literal_seg(seg: &PatternSeg) -> (r: bool)
    ensures
        r == spec_is_literal(seg@),
{
    match seg {
        PatternSeg::Literal(_) => true,
        PatternSeg::Param(_) => false,
    }
}

/// Compares two character vectors.
pub fn chars_eq(a: &Vec<char>, b: &Vec<char>) -> (r: bool)
    ensures
        r == (a@ == b@),
{
    if a.len() != b.len() {
        return false;
    }
    let mut i: usize = 0;
    while i < a.len()
        invariant
            i <= a.len(),
            a@.len() == b@.len(),
            forall|k: int| 0 <= k < i ==> a@[k] == b@[k],
        decreases a.len() - i,
    {
        if a[i] != b[i] {
            return false;
        }
        i = i + 1;
    }
    proof {
        assert(a@ =~= b@);
    }
    true
}

/// Decides whether a pattern matches the pieces of a concrete path.
pub fn pattern_matches(segs: &Vec<PatternSeg>, pieces: &Vec<Vec<char>>) -> (r: bool)
    ensures
        r == spec_pattern_matches(
            segs@.map_values(|s: PatternSeg| s@),
            pieces@.map_values(|v: Vec<char>| v@),
        ),
{
    let ghost sm = segs@.map_values(|s: PatternSeg| s@);
    let ghost pm = pieces@.map_values(|v: Vec<char>| v@);
    if segs.len() != pieces.len() {
        return false;
    }
    let mut i: usize = 0;
    while i < segs.len()
        invariant
            i <= segs.len(),
            sm == segs@.map_values(|s: PatternSeg| s@),
            pm == pieces@.map_values(|v: Vec<char>| v@),
            sm.len() == pm.len(),
            segs@.len() == pieces@.len(),
            forall|k: int| 0 <= k < i ==> spec_seg_matches(#[trigger] sm[k], pm[k]),
        decreases segs.len() - i,
    {
        let ok = seg_matches(&segs[i], &pieces[i]);
        proof {
            assert(sm[i as int] == segs@[i as int]@);
            assert(pm[i as int] == pieces@[i as int]@);
        }
        if !ok {
            return false;
        }
        i = i + 1;
    }
    true
}

fn seg_matches(seg: &PatternSeg, piece: &Vec<char>) -> (r: bool)
    ensures
        r == spec_seg_matches(seg@, piece@),
{
    match seg {
        PatternSeg::Literal(l) => chars_eq(l, piece),
        PatternSeg::Param(_) => piece.len() > 0,
    }
}

/// Decides whether two patterns would claim the same paths.
pub fn same_shape(a: &Vec<PatternSeg>, b: &Vec<PatternSeg>) -> (r: bool)
    ensures
        r == spec_same_shape(a@.map_values(|s: PatternSeg| s@), b@.map_values(|s: PatternSeg| s@)),
{
    let ghost am = a@.map_values(|s: PatternSeg| s@);
    let ghost bm = b@.map_values(|s: PatternSeg| s@);
    if a.len() != b.len() {
        return false;
    }
    let mut i: usize = 0;
    while i < a.len()
        invariant
            i <= a.len(),
            am == a@.map_values(|s: PatternSeg| s@),
            bm == b@.map_values(|s: PatternSeg| s@),
            a@.len() == b@.len(),
            am.len() == bm.len(),
            forall|k: int|
                0 <= k < i ==> (((#[trigger] am[k]) is Literal <==> bm[k] is Literal) && (am[k]
                    is Literal ==> am[k]->Literal_0 == bm[k]->Literal_0)),
        decreases a.len() - i,
    {
        let ok = segs_same_kind(&a[i], &b[i]);
        proof {
            assert(am[i as int] == a@[i as int]@);
            assert(bm[i as int] == b@[i as int]@);
        }
        if !ok {
            return false;
        }
        i = i + 1;
    }
    true
}

fn segs_same_kind(a: &PatternSeg, b: &PatternSeg) -> (r: bool)
    ensures
        r == ((spec_is_literal(a@) <==> spec_is_literal(b@)) && (spec_is_literal(a@)
            ==> a@->Literal_0 == b@->Literal_0)),
{
    match (a, b) {
        (PatternSeg::Literal(la), PatternSeg::Literal(lb)) => chars_eq(la, lb),
        (PatternSeg::Param(_), PatternSeg::Param(_)) => true,
        _ => false,
    }
}

/// Decides whether pattern `a` is more specific than pattern `b`.
pub fn more_specific(a: &Vec<PatternSeg>, b: &Vec<PatternSeg>) -> (r: bool)
    ensures
        r == spec_more_specific(
            a@.map_values(|s: PatternSeg| s@),
            b@.map_values(|s: PatternSeg| s@),
        ),
{
    let ghost am = a@.map_values(|s: PatternSeg| s@);
    let ghost bm = b@.map_values(|s: PatternSeg| s@);
    let mut i: usize = 0;
    proof {
        assert(am.skip(0) =~= am);
        assert(bm.skip(0) =~= bm);
    }
    while i < a.len() && i < b.len()
        invariant
            i <= a.len(),
            i <= b.len(),
            am == a@.map_values(|s: PatternSeg| s@),
            bm == b@.map_values(|s: PatternSeg| s@),
            spec_more_specific(am, bm) == spec_more_specific(
                am.skip(i as int),
                bm.skip(i as int),
            ),
        decreases a.len() - i,
    {
        proof {
            assert(am.skip(i as int)[0] == am[i as int]);
            assert(bm.skip(i as int)[0] == bm[i as int]);
            assert(am.skip(i as int).drop_first() =~= am.skip(i + 1));
            assert(bm.skip(i as int).drop_first() =~= bm.skip(i + 1));
        }
        let la = is_literal_seg(&a[i]);
        let lb = is_literal_seg(&b[i]);
        if la && !lb {
            return true;
        }
        if !la && lb {
            return false;
        }
        i = i + 1;
    }
    false
}

} // verus!
