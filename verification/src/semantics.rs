//! The meaning of a predicate set: which catalog items satisfy it.  The
//! builder's output is testable against this evaluation independently of
//! any SQL rendering.

use vstd::prelude::*;

use crate::model::Chair;
use crate::model::ChairModel;
use crate::model::Estate;
use crate::model::EstateModel;
use crate::predicate::Predicate;
use crate::predicate::PredicateModel;
use crate::predicate::SqlColumn;
use crate::text::contains_sub;
use crate::text::spec_contains_sub;

verus! {

/// The numeric column of a furniture item, when the column belongs to
/// the furniture table.
pub open spec fn spec_chair_column_int(c: ChairModel, col: SqlColumn) -> Option<int> {
    match col {
        SqlColumn::Price => Some(c.price),
        SqlColumn::Height => Some(c.height),
        SqlColumn::Width => Some(c.width),
        SqlColumn::Depth => Some(c.depth),
        SqlColumn::Stock => Some(c.stock),
        _ => None,
    }
}

/// The text column of a furniture item, when the column belongs to the
/// furniture table.
pub open spec fn spec_chair_column_text(c: ChairModel, col: SqlColumn) -> Option<Seq<char>> {
    match col {
        SqlColumn::Kind => Some(c.kind),
        SqlColumn::Color => Some(c.color),
        SqlColumn::Features => Some(c.features),
        _ => None,
    }
}

/// Whether one furniture item satisfies one predicate.  A predicate over
/// a column the furniture table does not have is satisfied by nothing.
pub open spec fn spec_chair_satisfies(c: ChairModel, p: PredicateModel) -> bool {
    match p {
        PredicateModel::RangeGeq(col, v) => spec_chair_column_int(c, col) matches Some(x) && x
            >= v,
        PredicateModel::RangeLt(col, v) => spec_chair_column_int(c, col) matches Some(x) && x
            < v,
        PredicateModel::Equals(col, s) => spec_chair_column_text(c, col) matches Some(t) && t
            == s,
        PredicateModel::ContainsFeature(t) => spec_contains_sub(c.features, t),
        PredicateModel::StockPositive => c.stock > 0,
    }
}

/// Whether one furniture item satisfies every predicate of a set (the
/// fragments are joined conjunctively).
pub open spec fn spec_chair_satisfies_all(c: ChairModel, ps: Seq<PredicateModel>) -> bool {
    forall|i: int| 0 <= i < ps.len() ==> spec_chair_satisfies(c, #[trigger] ps[i])
}

/// The numeric column of a listing, when the column belongs to the
/// listing table.
pub open spec fn spec_estate_column_int(e: EstateModel, col: SqlColumn) -> Option<int> {
    match col {
        SqlColumn::DoorHeight => Some(e.door_height),
        SqlColumn::DoorWidth => Some(e.door_width),
        SqlColumn::Rent => Some(e.rent),
        _ => None,
    }
}

/// The text column of a listing, when the column belongs to the listing
/// table.
pub open spec fn spec_estate_column_text(e: EstateModel, col: SqlColumn) -> Option<Seq<char>> {
    match col {
        SqlColumn::Features => Some(e.features),
        _ => None,
    }
}

/// Whether one listing satisfies one predicate.  A predicate over a
/// column the listing table does not have — the stock predicate among
/// them — is satisfied by nothing.
pub open spec fn spec_estate_satisfies(e: EstateModel, p: PredicateModel) -> bool {
    match p {
        PredicateModel::RangeGeq(col, v) => spec_estate_column_int(e, col) matches Some(x) && x
            >= v,
        PredicateModel::RangeLt(col, v) => spec_estate_column_int(e, col) matches Some(x) && x
            < v,
        PredicateModel::Equals(col, s) => spec_estate_column_text(e, col) matches Some(t) && t
            == s,
        PredicateModel::ContainsFeature(t) => spec_contains_sub(e.features, t),
        PredicateModel::StockPositive => false,
    }
}

/// Whether one listing satisfies every predicate of a set.
pub open spec fn spec_estate_satisfies_all(e: EstateModel, ps: Seq<PredicateModel>) -> bool {
    forall|i: int| 0 <= i < ps.len() ==> spec_estate_satisfies(e, #[trigger] ps[i])
}

fn chair_column_int(c: &Chair, col: SqlColumn) -> (r: Option<i64>)
    ensures
        match r {
            Option::Some(x) => spec_chair_column_int(c@, col) == Some(x as int),
            Option::None => spec_chair_column_int(c@, col) is None,
        },
{
    match col {
        SqlColumn::Price => Some(c.price),
        SqlColumn::Height => Some(c.height),
        SqlColumn::Width => Some(c.width),
        SqlColumn::Depth => Some(c.depth),
        SqlColumn::Stock => Some(c.stock),
        _ => None,
    }
}

fn chair_column_text<'a>(c: &'a Chair, col: SqlColumn) -> (r: Option<&'a String>)
    ensures
        match r {
            Option::Some(t) => spec_chair_column_text(c@, col) == Some(t@),
            Option::None => spec_chair_column_text(c@, col) is None,
        },
{
    match col {
        SqlColumn::Kind => Some(&c.kind),
        SqlColumn::Color => Some(&c.color),
        SqlColumn::Features => Some(&c.features),
        _ => None,
    }
}

fn chair_satisfies_one(c: &Chair, p: &Predicate) -> (r: bool)
    ensures
        r == spec_chair_satisfies(c@, p@),
{
    match p {
        Predicate::RangeGeq(col, v) => match chair_column_int(c, *col) {
            Option::Some(x) => x >= *v,
            Option::None => false,
        },
        Predicate::RangeLt(col, v) => match chair_column_int(c, *col) {
            Option::Some(x) => x < *v,
            Option::None => false,
        },
        Predicate::Equals(col, s) => match chair_column_text(c, *col) {
            Option::Some(t) => t.eq(s),
            Option::None => false,
        },
        Predicate::ContainsFeature(t) => contains_sub(c.features.as_str(), t.as_str()),
        Predicate::StockPositive => c.stock > 0,
    }
}

/// Evaluates a predicate set against one furniture item.
pub fn chair_matches(c: &Chair, preds: &Vec<Predicate>) -> (r: bool)
    ensures
        r == spec_chair_satisfies_all(c@, preds.deep_view()),
{
    let ghost dv: Seq<PredicateModel> = preds.deep_view();
    let mut i: usize = 0;
    while i < preds.len()
        invariant
            0 <= i <= preds.len(),
            dv == preds.deep_view(),
            dv.len() == preds.len(),
            forall|k: int| 0 <= k < i ==> spec_chair_satisfies(c@, #[trigger] dv[k]),
        decreases preds.len() - i,
    {
        let ok: bool = chair_satisfies_one(c, &preds[i]);
        proof {
            assert(preds[i as int].deep_view() == dv[i as int]);
        }
        if !ok {
            proof {
                assert(!spec_chair_satisfies(c@, dv[i as int]));
            }
            return false;
        }
        i = i + 1;
    }
    true
}

fn estate_column_int(e: &Estate, col: SqlColumn) -> (r: Option<i64>)
    ensures
        match r {
            Option::Some(x) => spec_estate_column_int(e@, col) == Some(x as int),
            Option::None => spec_estate_column_int(e@, col) is None,
        },
{
    match col {
        SqlColumn::DoorHeight => Some(e.door_height),
        SqlColumn::DoorWidth => Some(e.door_width),
        SqlColumn::Rent => Some(e.rent),
        _ => None,
    }
}

fn estate_satisfies_one(e: &Estate, p: &Predicate) -> (r: bool)
    ensures
        r == spec_estate_satisfies(e@, p@),
{
    match p {
        Predicate::RangeGeq(col, v) => match estate_column_int(e, *col) {
            Option::Some(x) => x >= *v,
            Option::None => false,
        },
        Predicate::RangeLt(col, v) => match estate_column_int(e, *col) {
            Option::Some(x) => x < *v,
            Option::None => false,
        },
        Predicate::Equals(col, s) => match col {
            SqlColumn::Features => e.features.eq(s),
            _ => false,
        },
        Predicate::ContainsFeature(t) => contains_sub(e.features.as_str(), t.as_str()),
        Predicate::StockPositive => false,
    }
}

/// Evaluates a predicate set against one listing.
pub fn estate_matches(e: &Estate, preds: &Vec<Predicate>) -> (r: bool)
    ensures
        r == spec_estate_satisfies_all(e@, preds.deep_view()),
{
    let ghost dv: Seq<PredicateModel> = preds.deep_view();
    let mut i: usize = 0;
    while i < preds.len()
        invariant
            0 <= i <= preds.len(),
            dv == preds.deep_view(),
            dv.len() == preds.len(),
            forall|k: int| 0 <= k < i ==> spec_estate_satisfies(e@, #[trigger] dv[k]),
        decreases preds.len() - i,
    {
        let ok: bool = estate_satisfies_one(e, &preds[i]);
        proof {
            assert(preds[i as int].deep_view() == dv[i as int]);
        }
        if !ok {
            proof {
                assert(!spec_estate_satisfies(e@, dv[i as int]));
            }
            return false;
        }
        i = i + 1;
    }
    true
}

} // verus!
