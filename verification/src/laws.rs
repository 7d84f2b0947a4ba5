//! Cross-function laws of the search core, stated over the spec
//! functions that the executable functions' contracts use.

use vstd::prelude::*;

use crate::catalog::ChairSearchCondition;
use crate::catalog::EstateSearchCondition;
use crate::catalog::Range;
use crate::catalog::all_digits;
use crate::catalog::digits_value;
use crate::catalog::spec_get_range;
use crate::catalog::spec_parse_i64;
use crate::error::SearchError;
use crate::error::SearchField;
use crate::model::ChairModel;
use crate::predicate::ChairSearchParamsModel;
use crate::predicate::EstateSearchParamsModel;
use crate::predicate::PredicateModel;
use crate::predicate::SqlColumn;
use crate::predicate::spec_build_chair_predicates;
use crate::predicate::spec_build_estate_predicates;
use crate::predicate::spec_range_predicates;
use crate::predicate::spec_range_step;
use crate::semantics::spec_chair_satisfies;
use crate::semantics::spec_chair_satisfies_all;

verus! {

/// For a range parameter with a valid identifier, the build step emits
/// a "`>=` minimum" fragment iff the bucket's minimum is bounded, and a
/// "`<` maximum" fragment iff its maximum is bounded.
pub proof fn lemma_range_step_valid(
    ranges: Seq<Range>,
    id: Seq<char>,
    col: SqlColumn,
    field: SearchField,
    acc: Seq<PredicateModel>,
    v: i64,
)
    requires
        id.len() > 0,
        spec_parse_i64(id) == Some(v),
        0 <= v < ranges.len(),
    ensures
        spec_range_step(ranges, id, col, field, acc) == Ok::<Seq<PredicateModel>, SearchError>(
            acc + spec_range_predicates(col, ranges[v as int]),
        ),
        spec_range_predicates(col, ranges[v as int]).contains(
            PredicateModel::RangeGeq(col, ranges[v as int].min as int),
        ) <==> ranges[v as int].min != -1,
        spec_range_predicates(col, ranges[v as int]).contains(
            PredicateModel::RangeLt(col, ranges[v as int].max as int),
        ) <==> ranges[v as int].max != -1,
{
    let r = ranges[v as int];
    let ps = spec_range_predicates(col, r);
    if r.min != -1 {
        assert(ps[0] == PredicateModel::RangeGeq(col, r.min as int));
        assert(ps.contains(PredicateModel::RangeGeq(col, r.min as int)));
    } else {
        assert(forall|i: int|
            0 <= i < ps.len() ==> #[trigger] ps[i] matches PredicateModel::RangeLt(_, _));
    }
    if r.max != -1 {
        let at = ps.len() - 1;
        assert(ps[at] == PredicateModel::RangeLt(col, r.max as int));
        assert(ps.contains(PredicateModel::RangeLt(col, r.max as int)));
    } else {
        assert(forall|i: int|
            0 <= i < ps.len() ==> #[trigger] ps[i] matches PredicateModel::RangeGeq(_, _));
    }
}

/// For a non-empty range parameter whose identifier does not parse as a
/// non-negative integer within the catalog's range count, the build
/// step fails with `InvalidRangeIdentifier` naming the field.
pub proof fn lemma_range_step_invalid(
    ranges: Seq<Range>,
    id: Seq<char>,
    col: SqlColumn,
    field: SearchField,
    acc: Seq<PredicateModel>,
)
    requires
        id.len() > 0,
        spec_parse_i64(id) matches Some(v) ==> !(0 <= v < ranges.len()),
    ensures
        spec_range_step(ranges, id, col, field, acc) == Err::<Seq<PredicateModel>, SearchError>(
            SearchError::InvalidRangeIdentifier(field),
        ),
{
}

/// A furniture search with zero recognized filters always fails with
/// `EmptySearchCondition`: a request with no filters is rejected, never
/// treated as "match everything".
pub proof fn lemma_empty_chair_search_rejected(
    cond: ChairSearchCondition,
    q: ChairSearchParamsModel,
)
    requires
        q.price_range_id.len() == 0,
        q.height_range_id.len() == 0,
        q.width_range_id.len() == 0,
        q.depth_range_id.len() == 0,
        q.kind.len() == 0,
        q.color.len() == 0,
        q.features.len() == 0,
    ensures
        spec_build_chair_predicates(cond, q) == Err::<Seq<PredicateModel>, SearchError>(
            SearchError::EmptySearchCondition,
        ),
{
}

/// A listing search with zero recognized filters always fails with
/// `EmptySearchCondition`.
pub proof fn lemma_empty_estate_search_rejected(
    cond: EstateSearchCondition,
    q: EstateSearchParamsModel,
)
    requires
        q.door_height_range_id.len() == 0,
        q.door_width_range_id.len() == 0,
        q.rent_range_id.len() == 0,
        q.features.len() == 0,
    ensures
        spec_build_estate_predicates(cond, q) == Err::<Seq<PredicateModel>, SearchError>(
            SearchError::EmptySearchCondition,
        ),
{
}

/// A furniture search filtered by one price bracket alone matches
/// exactly the items whose price lies in the bracket's half-open
/// interval and whose stock is positive.  Stated here for the bracket
/// with identifier 1 spanning [10000, 20000).
pub proof fn lemma_price_bracket_search_semantics(
    cond: ChairSearchCondition,
    q: ChairSearchParamsModel,
    c: ChairModel,
)
    requires
        q.price_range_id == seq!['1'],
        q.height_range_id.len() == 0,
        q.width_range_id.len() == 0,
        q.depth_range_id.len() == 0,
        q.kind.len() == 0,
        q.color.len() == 0,
        q.features.len() == 0,
        cond.price.ranges@.len() > 1,
        cond.price.ranges@[1] == (Range { id: 1, min: 10000, max: 20000 }),
    ensures
        spec_build_chair_predicates(cond, q) matches Ok(ps) && (spec_chair_satisfies_all(c, ps)
            <==> (10000 <= c.price < 20000 && c.stock > 0)),
{
    let id = q.price_range_id;
    assert(id[0] == '1');
    assert(all_digits(id)) by {
        assert(forall|i: int| 0 <= i < id.len() ==> id[i] == '1');
    }
    assert(digits_value(id) == 1) by {
        assert(id.drop_last() =~= Seq::<char>::empty());
        assert(digits_value(id) == digits_value(id.drop_last()) * 10 + (id.last() as u32 - '0'
            as u32));
    }
    assert(spec_parse_i64(id) == Some(1i64));
    let r = cond.price.ranges@[1];
    assert(spec_get_range(cond.price.ranges@, id) == Some(r));
    let ps0 = seq![
        PredicateModel::RangeGeq(SqlColumn::Price, 10000),
        PredicateModel::RangeLt(SqlColumn::Price, 20000),
    ];
    assert(Seq::<PredicateModel>::empty() + spec_range_predicates(SqlColumn::Price, r) =~= ps0);
    assert(seq![] + spec_range_predicates(SqlColumn::Price, r) =~= ps0);
    let p7 = ps0 + seq![] + seq![] + seq![];
    assert(p7 =~= ps0);
    let ps = ps0.push(PredicateModel::StockPositive);
    assert(spec_build_chair_predicates(cond, q) == Ok::<Seq<PredicateModel>, SearchError>(ps));
    assert(spec_chair_satisfies(c, ps[0]) == (c.price >= 10000));
    assert(spec_chair_satisfies(c, ps[1]) == (c.price < 20000));
    assert(spec_chair_satisfies(c, ps[2]) == (c.stock > 0));
    if spec_chair_satisfies_all(c, ps) {
        assert(spec_chair_satisfies(c, ps[0]));
        assert(spec_chair_satisfies(c, ps[1]));
        assert(spec_chair_satisfies(c, ps[2]));
    }
    if 10000 <= c.price < 20000 && c.stock > 0 {
        assert(forall|i: int| 0 <= i < ps.len() ==> spec_chair_satisfies(c, #[trigger] ps[i]));
    }
}

} // verus!
