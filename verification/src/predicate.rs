//! The predicate builder: translation of the fixed set of UI-facing
//! filter parameters into an ordered predicate set, or a classified
//! validation failure.
//!
//! Predicates are a small tagged AST rather than literal SQL text; the
//! query compiler renders them to parameterized fragments at one
//! translation boundary.

use vstd::prelude::*;

use crate::catalog::ChairSearchCondition;
use crate::catalog::EstateSearchCondition;
use crate::catalog::Range;
use crate::catalog::RangeCondition;
use crate::catalog::spec_get_range;
use crate::error::SearchError;
use crate::error::SearchField;
use crate::text::spec_split_commas;
use crate::text::split_commas;

verus! {

/// A searchable column of one of the two catalog tables.
#[derive(Clone, Copy, Debug, PartialEq, Eq, Structural)]
pub enum SqlColumn {
    Price,
    Height,
    Width,
    Depth,
    Kind,
    Color,
    Features,
    DoorHeight,
    DoorWidth,
    Rent,
    Stock,
}

/// One query constraint.  The variants carry the bound value; rendering
/// to SQL text happens in the query compiler.
#[derive(Debug, PartialEq, Eq)]
pub enum Predicate {
    /// `column >= value`
    RangeGeq(SqlColumn, i64),
    /// `column < value`
    RangeLt(SqlColumn, i64),
    /// `column = value` (exact categorical match, accepted as-is)
    Equals(SqlColumn, String),
    /// `features like '%token%'` (conjunctive per token)
    ContainsFeature(String),
    /// `stock > 0`, appended to every furniture search, not user-controlled
    StockPositive,
}

/// Mathematical view of a predicate.
pub ghost enum PredicateModel {
    RangeGeq(SqlColumn, int),
    RangeLt(SqlColumn, int),
    Equals(SqlColumn, Seq<char>),
    ContainsFeature(Seq<char>),
    StockPositive,
}

impl View for Predicate {
    type V = PredicateModel;

    open spec fn view(&self) -> PredicateModel {
        match self {
            Predicate::RangeGeq(c, v) => PredicateModel::RangeGeq(*c, *v as int),
            Predicate::RangeLt(c, v) => PredicateModel::RangeLt(*c, *v as int),
            Predicate::Equals(c, s) => PredicateModel::Equals(*c, s@),
            Predicate::ContainsFeature(s) => PredicateModel::ContainsFeature(s@),
            Predicate::StockPositive => PredicateModel::StockPositive,
        }
    }
}

impl DeepView for Predicate {
    type V = PredicateModel;

    open spec fn deep_view(&self) -> PredicateModel {
        self.view()
    }
}

/// Raw parameter strings of one furniture search request.
pub struct ChairSearchParams {
    pub price_range_id: String,
    pub height_range_id: String,
    pub width_range_id: String,
    pub depth_range_id: String,
    pub kind: String,
    pub color: String,
    pub features: String,
    pub page: i64,
    pub per_page: i64,
}

/// Mathematical view of the raw furniture search parameters.
pub ghost struct ChairSearchParamsModel {
    pub price_range_id: Seq<char>,
    pub height_range_id: Seq<char>,
    pub width_range_id: Seq<char>,
    pub depth_range_id: Seq<char>,
    pub kind: Seq<char>,
    pub color: Seq<char>,
    pub features: Seq<char>,
    pub page: int,
    pub per_page: int,
}

impl View for ChairSearchParams {
    type V = ChairSearchParamsModel;

    open spec fn view(&self) -> ChairSearchParamsModel {
        ChairSearchParamsModel {
            price_range_id: self.price_range_id@,
            height_range_id: self.height_range_id@,
            width_range_id: self.width_range_id@,
            depth_range_id: self.depth_range_id@,
            kind: self.kind@,
            color: self.color@,
            features: self.features@,
            page: self.page as int,
            per_page: self.per_page as int,
        }
    }
}

/// Raw parameter strings of one listing search request.
pub struct EstateSearchParams {
    pub door_height_range_id: String,
    pub door_width_range_id: String,
    pub rent_range_id: String,
    pub features: String,
    pub page: i64,
    pub per_page: i64,
}

/// Mathematical view of the raw listing search parameters.
pub ghost struct EstateSearchParamsModel {
    pub door_height_range_id: Seq<char>,
    pub door_width_range_id: Seq<char>,
    pub rent_range_id: Seq<char>,
    pub features: Seq<char>,
    pub page: int,
    pub per_page: int,
}

impl View for EstateSearchParams {
    type V = EstateSearchParamsModel;

    open spec fn view(&self) -> EstateSearchParamsModel {
        EstateSearchParamsModel {
            door_height_range_id: self.door_height_range_id@,
            door_width_range_id: self.door_width_range_id@,
            rent_range_id: self.rent_range_id@,
            features: self.features@,
            page: self.page as int,
            per_page: self.per_page as int,
        }
    }
}

/// The fragments one range bucket contributes: a "`>=` minimum" predicate
/// when the minimum is bounded and a "`<` maximum" predicate when the
/// maximum is bounded; both, one, or neither may fire.
pub open spec fn spec_range_predicates(col: SqlColumn, r: Range) -> Seq<PredicateModel> {
    let geq: Seq<PredicateModel> = if r.min != -1 {
        seq![PredicateModel::RangeGeq(col, r.min as int)]
    } else {
        seq![]
    };
    let lt: Seq<PredicateModel> = if r.max != -1 {
        seq![PredicateModel::RangeLt(col, r.max as int)]
    } else {
        seq![]
    };
    geq + lt
}

/// Processing one range-style parameter: absent or empty contributes
/// nothing; otherwise the identifier is looked up and its bucket's
/// fragments are appended, or the whole build fails.
pub open spec fn spec_range_step(
    ranges: Seq<Range>,
    id: Seq<char>,
    col: SqlColumn,
    field: SearchField,
    acc: Seq<PredicateModel>,
) -> Result<Seq<PredicateModel>, SearchError> {
    if id.len() == 0 {
        Ok(acc)
    } else {
        match spec_get_range(ranges, id) {
            None => Err(SearchError::InvalidRangeIdentifier(field)),
            Some(r) => Ok(acc + spec_range_predicates(col, r)),
        }
    }
}

/// Processing one categorical parameter: an exact equality fragment when
/// present and non-empty, accepted as-is without catalog validation.
pub open spec fn spec_equals_predicates(col: SqlColumn, value: Seq<char>) -> Seq<
    PredicateModel,
> {
    if value.len() == 0 {
        seq![]
    } else {
        seq![PredicateModel::Equals(col, value)]
    }
}

/// Processing the multi-valued feature parameter: one containment
/// fragment per comma-separated token, conjunctive, empty tokens kept.
pub open spec fn spec_feature_predicates(features: Seq<char>) -> Seq<PredicateModel> {
    if features.len() == 0 {
        seq![]
    } else {
        spec_split_commas(features).map_values(|t: Seq<char>| PredicateModel::ContainsFeature(t))
    }
}

/// The full furniture predicate build: range parameters in catalog field
/// order (price, height, width, depth), then kind, color, features; a
/// build with zero fragments is rejected; otherwise the implicit
/// positive-stock predicate is appended.
pub open spec fn spec_build_chair_predicates(
    cond: ChairSearchCondition,
    q: ChairSearchParamsModel,
) -> Result<Seq<PredicateModel>, SearchError> {
    match spec_range_step(
        cond.price.ranges@,
        q.price_range_id,
        SqlColumn::Price,
        SearchField::Price,
        seq![],
    ) {
        Err(e) => Err(e),
        Ok(p1) => match spec_range_step(
            cond.height.ranges@,
            q.height_range_id,
            SqlColumn::Height,
            SearchField::Height,
            p1,
        ) {
            Err(e) => Err(e),
            Ok(p2) => match spec_range_step(
                cond.width.ranges@,
                q.width_range_id,
                SqlColumn::Width,
                SearchField::Width,
                p2,
            ) {
                Err(e) => Err(e),
                Ok(p3) => match spec_range_step(
                    cond.depth.ranges@,
                    q.depth_range_id,
                    SqlColumn::Depth,
                    SearchField::Depth,
                    p3,
                ) {
                    Err(e) => Err(e),
                    Ok(p4) => {
                        let p7 = p4 + spec_equals_predicates(SqlColumn::Kind, q.kind)
                            + spec_equals_predicates(SqlColumn::Color, q.color)
                            + spec_feature_predicates(q.features);
                        if p7.len() == 0 {
                            Err(SearchError::EmptySearchCondition)
                        } else {
                            Ok(p7.push(PredicateModel::StockPositive))
                        }
                    },
                },
            },
        },
    }
}

/// The full listing predicate build: range parameters in catalog field
/// order (door height, door width, rent), then features; a build with
/// zero fragments is rejected.
pub open spec fn spec_build_estate_predicates(
    cond: EstateSearchCondition,
    q: EstateSearchParamsModel,
) -> Result<Seq<PredicateModel>, SearchError> {
    match spec_range_step(
        cond.door_height.ranges@,
        q.door_height_range_id,
        SqlColumn::DoorHeight,
        SearchField::DoorHeight,
        seq![],
    ) {
        Err(e) => Err(e),
        Ok(p1) => match spec_range_step(
            cond.door_width.ranges@,
            q.door_width_range_id,
            SqlColumn::DoorWidth,
            SearchField::DoorWidth,
            p1,
        ) {
            Err(e) => Err(e),
            Ok(p2) => match spec_range_step(
                cond.rent.ranges@,
                q.rent_range_id,
                SqlColumn::Rent,
                SearchField::Rent,
                p2,
            ) {
                Err(e) => Err(e),
                Ok(p3) => {
                    let p4 = p3 + spec_feature_predicates(q.features);
                    if p4.len() == 0 {
                        Err(SearchError::EmptySearchCondition)
                    } else {
                        Ok(p4)
                    }
                },
            },
        },
    }
}

/// Appends the fragments of one range-style parameter, or reports the
/// classified failure, leaving the set untouched.
fn apply_range_param(
    preds: &mut Vec<Predicate>,
    cond: &RangeCondition,
    id: &str,
    col: SqlColumn,
    field: SearchField,
) -> (r: Result<(), SearchError>)
    ensures
        match r {
            Ok(_) => spec_range_step(cond.ranges@, id@, col, field, old(preds).deep_view())
                == Ok::<Seq<PredicateModel>, SearchError>(final(preds).deep_view()),
            Err(e) => spec_range_step(cond.ranges@, id@, col, field, old(preds).deep_view())
                == Err::<Seq<PredicateModel>, SearchError>(e) && final(preds).deep_view() == old(
                preds,
            ).deep_view(),
        },
{
    if id.is_empty() {
        return Ok(());
    }
    match crate::catalog::get_range(cond, id) {
        None => Err(SearchError::InvalidRangeIdentifier(field)),
        Some(range) => {
            let ghost base: Seq<PredicateModel> = preds.deep_view();
            if range.min != -1 {
                preds.push(Predicate::RangeGeq(col, range.min));
                proof {
                    assert(preds.deep_view() =~= base.push(
                        PredicateModel::RangeGeq(col, range.min as int),
                    ));
                }
            }
            if range.max != -1 {
                let ghost mid: Seq<PredicateModel> = preds.deep_view();
                preds.push(Predicate::RangeLt(col, range.max));
                proof {
                    assert(preds.deep_view() =~= mid.push(
                        PredicateModel::RangeLt(col, range.max as int),
                    ));
                }
            }
            proof {
                assert(preds.deep_view() =~= base + spec_range_predicates(col, range));
            }
            Ok(())
        },
    }
}

/// Appends the equality fragment of one categorical parameter, when the
/// parameter is non-empty.
fn apply_equals_param(preds: &mut Vec<Predicate>, value: &String, col: SqlColumn)
    ensures
        final(preds).deep_view() == old(preds).deep_view() + spec_equals_predicates(col, value@),
{
    let ghost base: Seq<PredicateModel> = preds.deep_view();
    if !value.as_str().is_empty() {
        preds.push(Predicate::Equals(col, value.clone()));
        proof {
            assert(preds.deep_view() =~= base + spec_equals_predicates(col, value@));
        }
    } else {
        proof {
            assert(preds.deep_view() =~= base + spec_equals_predicates(col, value@));
        }
    }
}

/// Appends one containment fragment per comma-separated feature token.
fn apply_feature_params(preds: &mut Vec<Predicate>, features: &str)
    ensures
        final(preds).deep_view() == old(preds).deep_view() + spec_feature_predicates(features@),
{
    let ghost base: Seq<PredicateModel> = preds.deep_view();
    if features.is_empty() {
        proof {
            assert(preds.deep_view() =~= base + spec_feature_predicates(features@));
        }
        return ;
    }
    let tokens: Vec<String> = split_commas(features);
    let ghost toks: Seq<Seq<char>> = tokens.deep_view();
    let ghost f = |t: Seq<char>| PredicateModel::ContainsFeature(t);
    let mut i: usize = 0;
    while i < tokens.len()
        invariant
            0 <= i <= tokens.len(),
            toks == tokens.deep_view(),
            preds.deep_view() == base + toks.subrange(0, i as int).map_values(f),
            f == (|t: Seq<char>| PredicateModel::ContainsFeature(t)),
        decreases tokens.len() - i,
    {
        let tok: String = tokens[i].clone();
        let ghost prev: Seq<PredicateModel> = preds.deep_view();
        proof {
            assert(tok@ == toks[i as int]);
        }
        preds.push(Predicate::ContainsFeature(tok));
        proof {
            assert(preds.deep_view() =~= prev.push(f(toks[i as int])));
            assert(toks.subrange(0, i as int + 1).drop_last() =~= toks.subrange(0, i as int));
            assert(toks.subrange(0, i as int + 1).map_values(f) =~= toks.subrange(
                0,
                i as int,
            ).map_values(f).push(f(toks[i as int])));
            assert(preds.deep_view() =~= base + toks.subrange(0, i as int + 1).map_values(f));
        }
        i = i + 1;
    }
    proof {
        assert(toks.subrange(0, toks.len() as int) =~= toks);
        assert(preds.deep_view() =~= base + spec_feature_predicates(features@));
    }
}

/// Builds the furniture predicate set from the condition catalog and one
/// search request, or fails with the classified validation error: an
/// unknown or malformed range identifier, or a request with no filters
/// at all.
pub fn build_chair_predicates(cond: &ChairSearchCondition, q: &ChairSearchParams) -> (r:
    Result<Vec<Predicate>, SearchError>)
    ensures
        match r {
            Ok(v) => spec_build_chair_predicates(*cond, q@) == Ok::<
                Seq<PredicateModel>,
                SearchError,
            >(v.deep_view()),
            Err(e) => spec_build_chair_predicates(*cond, q@) == Err::<
                Seq<PredicateModel>,
                SearchError,
            >(e),
        },
{
    let mut preds: Vec<Predicate> = Vec::new();
    proof {
        assert(preds.deep_view() =~= Seq::<PredicateModel>::empty());
    }
    match apply_range_param(
        &mut preds,
        &cond.price,
        q.price_range_id.as_str(),
        SqlColumn::Price,
        SearchField::Price,
    ) {
        Err(e) => {
            return Err(e);
        },
        Ok(_) => {},
    }
    match apply_range_param(
        &mut preds,
        &cond.height,
        q.height_range_id.as_str(),
        SqlColumn::Height,
        SearchField::Height,
    ) {
        Err(e) => {
            return Err(e);
        },
        Ok(_) => {},
    }
    match apply_range_param(
        &mut preds,
        &cond.width,
        q.width_range_id.as_str(),
        SqlColumn::Width,
        SearchField::Width,
    ) {
        Err(e) => {
            return Err(e);
        },
        Ok(_) => {},
    }
    match apply_range_param(
        &mut preds,
        &cond.depth,
        q.depth_range_id.as_str(),
        SqlColumn::Depth,
        SearchField::Depth,
    ) {
        Err(e) => {
            return Err(e);
        },
        Ok(_) => {},
    }
    apply_equals_param(&mut preds, &q.kind, SqlColumn::Kind);
    apply_equals_param(&mut preds, &q.color, SqlColumn::Color);
    apply_feature_params(&mut preds, q.features.as_str());
    if preds.len() == 0 {
        return Err(SearchError::EmptySearchCondition);
    }
    let ghost before_stock: Seq<PredicateModel> = preds.deep_view();
    preds.push(Predicate::StockPositive);
    proof {
        assert(preds.deep_view() =~= before_stock.push(PredicateModel::StockPositive));
    }
    Ok(preds)
}

/// Builds the listing predicate set from the condition catalog and one
/// search request, or fails with the classified validation error.
pub fn build_estate_predicates(cond: &EstateSearchCondition, q: &EstateSearchParams) -> (r:
    Result<Vec<Predicate>, SearchError>)
    ensures
        match r {
            Ok(v) => spec_build_estate_predicates(*cond, q@) == Ok::<
                Seq<PredicateModel>,
                SearchError,
            >(v.deep_view()),
            Err(e) => spec_build_estate_predicates(*cond, q@) == Err::<
                Seq<PredicateModel>,
                SearchError,
            >(e),
        },
{
    let mut preds: Vec<Predicate> = Vec::new();
    proof {
        assert(preds.deep_view() =~= Seq::<PredicateModel>::empty());
    }
    match apply_range_param(
        &mut preds,
        &cond.door_height,
        q.door_height_range_id.as_str(),
        SqlColumn::DoorHeight,
        SearchField::DoorHeight,
    ) {
        Err(e) => {
            return Err(e);
        },
        Ok(_) => {},
    }
    match apply_range_param(
        &mut preds,
        &cond.door_width,
        q.door_width_range_id.as_str(),
        SqlColumn::DoorWidth,
        SearchField::DoorWidth,
    ) {
        Err(e) => {
            return Err(e);
        },
        Ok(_) => {},
    }
    match apply_range_param(
        &mut preds,
        &cond.rent,
        q.rent_range_id.as_str(),
        SqlColumn::Rent,
        SearchField::Rent,
    ) {
        Err(e) => {
            return Err(e);
        },
        Ok(_) => {},
    }
    apply_feature_params(&mut preds, q.features.as_str());
    if preds.len() == 0 {
        return Err(SearchError::EmptySearchCondition);
    }
    Ok(preds)
}

} // verus!
