//! The dimensional matcher: fitting an item's three dimensions, order
//! independently, against a listing's two-dimensional door opening.
//!
//! Only the smallest and the middle of the three sorted dimensions
//! matter: the item can always be tilted along its longest axis during
//! passage, so the two admissible openings are (smallest, middle) and
//! (middle, smallest).

use vstd::prelude::*;

use crate::error::SearchError;
use crate::model::Chair;
use crate::model::ChairModel;
use crate::query::SqlParam;
use crate::query::SqlParamModel;

verus! {

/// Candidate listings returned for one recommendation, at most this many.
pub const RECOMMEND_LIMIT: i64 = 20;

pub open spec fn spec_min3(a: int, b: int, c: int) -> int {
    if a <= b && a <= c {
        a
    } else if b <= c {
        b
    } else {
        c
    }
}

pub open spec fn spec_max3(a: int, b: int, c: int) -> int {
    if a >= b && a >= c {
        a
    } else if b >= c {
        b
    } else {
        c
    }
}

pub open spec fn spec_mid3(a: int, b: int, c: int) -> int {
    a + b + c - spec_min3(a, b, c) - spec_max3(a, b, c)
}

/// The two admissible (door width, door height) thresholds for an item
/// with the given three dimensions.
pub open spec fn spec_admissible_openings(w: int, h: int, d: int) -> ((int, int), (int, int)) {
    ((spec_min3(w, h, d), spec_mid3(w, h, d)), (spec_mid3(w, h, d), spec_min3(w, h, d)))
}

/// A listing's opening admits the item when it is component-wise at
/// least one of the two admissible threshold pairs.
pub open spec fn spec_fits(door_w: int, door_h: int, w: int, h: int, d: int) -> bool {
    let lo = spec_min3(w, h, d);
    let mid = spec_mid3(w, h, d);
    (door_w >= lo && door_h >= mid) || (door_w >= mid && door_h >= lo)
}

/// Sorts three dimensions ascending.
pub fn sort3(a: i64, b: i64, c: i64) -> (r: (i64, i64, i64))
    ensures
        r.0 as int == spec_min3(a as int, b as int, c as int),
        r.1 as int == spec_mid3(a as int, b as int, c as int),
        r.2 as int == spec_max3(a as int, b as int, c as int),
        r.0 <= r.1 <= r.2,
{
    let mut x: i64 = a;
    let mut y: i64 = b;
    let mut z: i64 = c;
    if x > y {
        let t: i64 = x;
        x = y;
        y = t;
    }
    if y > z {
        let t: i64 = y;
        y = z;
        z = t;
    }
    if x > y {
        let t: i64 = x;
        x = y;
        y = t;
    }
    (x, y, z)
}

/// The two admissible (door width, door height) threshold pairs of an
/// item, order independent in the three dimensions.
pub fn admissible_openings(w: i64, h: i64, d: i64) -> (r: ((i64, i64), (i64, i64)))
    ensures
        ((r.0.0 as int, r.0.1 as int), (r.1.0 as int, r.1.1 as int))
            == spec_admissible_openings(w as int, h as int, d as int),
{
    let (lo, mid, _hi) = sort3(w, h, d);
    ((lo, mid), (mid, lo))
}

/// Whether a listing's opening admits an item with the given dimensions.
pub fn fits(door_w: i64, door_h: i64, w: i64, h: i64, d: i64) -> (r: bool)
    ensures
        r == spec_fits(door_w as int, door_h as int, w as int, h as int, d as int),
{
    let (lo, mid, _hi) = sort3(w, h, d);
    (door_w >= lo && door_h >= mid) || (door_w >= mid && door_h >= lo)
}

/// The admissible openings do not depend on the order in which the three
/// dimensions are given: sorting normalizes every permutation.
pub proof fn lemma_matcher_permutation_invariant(a: int, b: int, c: int)
    ensures
        spec_admissible_openings(a, b, c) == spec_admissible_openings(a, c, b),
        spec_admissible_openings(a, b, c) == spec_admissible_openings(b, a, c),
        spec_admissible_openings(a, b, c) == spec_admissible_openings(b, c, a),
        spec_admissible_openings(a, b, c) == spec_admissible_openings(c, a, b),
        spec_admissible_openings(a, b, c) == spec_admissible_openings(c, b, a),
{
}

/// The fit predicate is likewise order independent in the item's
/// dimensions.
pub proof fn lemma_fit_permutation_invariant(dw: int, dh: int, a: int, b: int, c: int)
    ensures
        spec_fits(dw, dh, a, b, c) == spec_fits(dw, dh, a, c, b),
        spec_fits(dw, dh, a, b, c) == spec_fits(dw, dh, b, a, c),
        spec_fits(dw, dh, a, b, c) == spec_fits(dw, dh, b, c, a),
        spec_fits(dw, dh, a, b, c) == spec_fits(dw, dh, c, a, b),
        spec_fits(dw, dh, a, b, c) == spec_fits(dw, dh, c, b, a),
{
}

pub open spec fn spec_recommend_query() -> Seq<char> {
    "select * from estate where (door_width >= ? and door_height >= ?) or (door_width >= ? and door_height >= ?) order by popularity desc, id desc limit ?"@
}

/// The bound values of one recommendation query: the two admissible
/// threshold pairs, then the candidate limit.
pub open spec fn spec_recommend_params(c: ChairModel) -> Seq<SqlParamModel> {
    let lo = spec_min3(c.width, c.height, c.depth);
    let mid = spec_mid3(c.width, c.height, c.depth);
    seq![
        SqlParamModel::Int(lo),
        SqlParamModel::Int(mid),
        SqlParamModel::Int(mid),
        SqlParamModel::Int(lo),
        SqlParamModel::Int(RECOMMEND_LIMIT as int),
    ]
}

/// One recommendation query, compiled.
pub struct RecommendPlan {
    pub query: String,
    pub params: Vec<SqlParam>,
}

/// Plans the recommendation for the item the storage collaborator looked
/// up.  A missing item fails with `ItemNotFound`; the caller maps that to
/// a client error, because the identifier is caller-supplied.
pub fn plan_recommendation(chair: &Option<Chair>) -> (r: Result<RecommendPlan, SearchError>)
    ensures
        match chair {
            Option::None => r matches Err(e) && e == SearchError::ItemNotFound,
            Option::Some(c) => r matches Ok(p) && p.query@ == spec_recommend_query()
                && p.params.deep_view() == spec_recommend_params(c@),
        },
{
    match chair {
        Option::None => Err(SearchError::ItemNotFound),
        Option::Some(c) => {
            let (lo, mid, _hi) = sort3(c.width, c.height, c.depth);
            let mut params: Vec<SqlParam> = Vec::new();
            params.push(SqlParam::Int(lo));
            params.push(SqlParam::Int(mid));
            params.push(SqlParam::Int(mid));
            params.push(SqlParam::Int(lo));
            params.push(SqlParam::Int(RECOMMEND_LIMIT));
            proof {
                assert(params.deep_view() =~= spec_recommend_params(c@));
            }
            Ok(
                RecommendPlan {
                    query: "select * from estate where (door_width >= ? and door_height >= ?) or (door_width >= ? and door_height >= ?) order by popularity desc, id desc limit ?".to_owned(),
                    params,
                },
            )
        },
    }
}

} // verus!
