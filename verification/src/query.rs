//! The query compiler: the one translation boundary where the predicate
//! AST is rendered to parameterized SQL text.  Every user-supplied value
//! travels as a bound parameter; the text itself is assembled only from
//! fixed fragments, so injection safety rests on this module alone.

use vstd::prelude::*;

use crate::predicate::Predicate;
use crate::predicate::PredicateModel;
use crate::predicate::SqlColumn;

verus! {

/// A value bound to one `?` placeholder.
#[derive(Debug, PartialEq, Eq)]
pub enum SqlParam {
    Int(i64),
    Text(String),
}

/// Mathematical view of a bound parameter.
pub ghost enum SqlParamModel {
    Int(int),
    Text(Seq<char>),
}

impl View for SqlParam {
    type V = SqlParamModel;

    open spec fn view(&self) -> SqlParamModel {
        match self {
            SqlParam::Int(v) => SqlParamModel::Int(*v as int),
            SqlParam::Text(s) => SqlParamModel::Text(s@),
        }
    }
}

impl DeepView for SqlParam {
    type V = SqlParamModel;

    open spec fn deep_view(&self) -> SqlParamModel {
        self.view()
    }
}

/// The two catalog tables.
#[derive(Clone, Copy, Debug, PartialEq, Eq, Structural)]
pub enum Table {
    Chair,
    Estate,
}

pub open spec fn spec_table_sql(t: Table) -> Seq<char> {
    match t {
        Table::Chair => "chair"@,
        Table::Estate => "estate"@,
    }
}

pub open spec fn spec_column_sql(c: SqlColumn) -> Seq<char> {
    match c {
        SqlColumn::Price => "price"@,
        SqlColumn::Height => "height"@,
        SqlColumn::Width => "width"@,
        SqlColumn::Depth => "depth"@,
        SqlColumn::Kind => "kind"@,
        SqlColumn::Color => "color"@,
        SqlColumn::Features => "features"@,
        SqlColumn::DoorHeight => "door_height"@,
        SqlColumn::DoorWidth => "door_width"@,
        SqlColumn::Rent => "rent"@,
        SqlColumn::Stock => "stock"@,
    }
}

/// The SQL fragment one predicate renders to; user values appear only as
/// `?` placeholders.
pub open spec fn spec_fragment_sql(p: PredicateModel) -> Seq<char> {
    match p {
        PredicateModel::RangeGeq(c, _) => spec_column_sql(c) + " >= ?"@,
        PredicateModel::RangeLt(c, _) => spec_column_sql(c) + " < ?"@,
        PredicateModel::Equals(c, _) => spec_column_sql(c) + " = ?"@,
        PredicateModel::ContainsFeature(_) => "features like concat('%', ?, '%')"@,
        PredicateModel::StockPositive => "stock > 0"@,
    }
}

/// The bound values one predicate contributes, in placeholder order.
pub open spec fn spec_fragment_params(p: PredicateModel) -> Seq<SqlParamModel> {
    match p {
        PredicateModel::RangeGeq(_, v) => seq![SqlParamModel::Int(v)],
        PredicateModel::RangeLt(_, v) => seq![SqlParamModel::Int(v)],
        PredicateModel::Equals(_, s) => seq![SqlParamModel::Text(s)],
        PredicateModel::ContainsFeature(s) => seq![SqlParamModel::Text(s)],
        PredicateModel::StockPositive => seq![],
    }
}

/// The predicate fragments joined by logical AND, in predicate order.
pub open spec fn spec_joined_sql(ps: Seq<PredicateModel>) -> Seq<char>
    decreases ps.len(),
{
    if ps.len() == 0 {
        Seq::<char>::empty()
    } else if ps.len() == 1 {
        spec_fragment_sql(ps[0])
    } else {
        spec_joined_sql(ps.drop_last()) + " and "@ + spec_fragment_sql(ps.last())
    }
}

/// All bound values of a predicate set, in predicate order.
pub open spec fn spec_all_params(ps: Seq<PredicateModel>) -> Seq<SqlParamModel>
    decreases ps.len(),
{
    if ps.len() == 0 {
        Seq::<SqlParamModel>::empty()
    } else {
        spec_all_params(ps.drop_last()) + spec_fragment_params(ps.last())
    }
}

pub open spec fn spec_count_query(t: Table, cond: Seq<char>) -> Seq<char> {
    "select count(*) from "@ + spec_table_sql(t) + " where "@ + cond
}

pub open spec fn spec_page_query(t: Table, cond: Seq<char>) -> Seq<char> {
    "select * from "@ + spec_table_sql(t) + " where "@ + cond
        + " order by popularity desc, id desc limit ? offset ?"@
}

fn table_sql(t: Table) -> (r: &'static str)
    ensures
        r@ == spec_table_sql(t),
{
    match t {
        Table::Chair => "chair",
        Table::Estate => "estate",
    }
}

fn column_sql(c: SqlColumn) -> (r: &'static str)
    ensures
        r@ == spec_column_sql(c),
{
    match c {
        SqlColumn::Price => "price",
        SqlColumn::Height => "height",
        SqlColumn::Width => "width",
        SqlColumn::Depth => "depth",
        SqlColumn::Kind => "kind",
        SqlColumn::Color => "color",
        SqlColumn::Features => "features",
        SqlColumn::DoorHeight => "door_height",
        SqlColumn::DoorWidth => "door_width",
        SqlColumn::Rent => "rent",
        SqlColumn::Stock => "stock",
    }
}

/// Renders one predicate to its SQL fragment.
fn fragment_sql(p: &Predicate) -> (r: String)
    ensures
        r@ == spec_fragment_sql(p@),
{
    match p {
        Predicate::RangeGeq(c, _) => {
            let mut s: String = column_sql(*c).to_owned();
            s.append(" >= ?");
            s
        },
        Predicate::RangeLt(c, _) => {
            let mut s: String = column_sql(*c).to_owned();
            s.append(" < ?");
            s
        },
        Predicate::Equals(c, _) => {
            let mut s: String = column_sql(*c).to_owned();
            s.append(" = ?");
            s
        },
        Predicate::ContainsFeature(_) => "features like concat('%', ?, '%')".to_owned(),
        Predicate::StockPositive => "stock > 0".to_owned(),
    }
}

/// Appends the bound values of one predicate.
fn push_fragment_params(out: &mut Vec<SqlParam>, p: &Predicate)
    ensures
        final(out).deep_view() == old(out).deep_view() + spec_fragment_params(p@),
{
    let ghost base: Seq<SqlParamModel> = out.deep_view();
    match p {
        Predicate::RangeGeq(_, v) => {
            out.push(SqlParam::Int(*v));
        },
        Predicate::RangeLt(_, v) => {
            out.push(SqlParam::Int(*v));
        },
        Predicate::Equals(_, s) => {
            out.push(SqlParam::Text(s.clone()));
        },
        Predicate::ContainsFeature(s) => {
            out.push(SqlParam::Text(s.clone()));
        },
        Predicate::StockPositive => {},
    }
    proof {
        assert(out.deep_view() =~= base + spec_fragment_params(p@));
    }
}

/// Joins the fragments of a predicate set with `" and "`.
pub fn joined_sql(preds: &Vec<Predicate>) -> (r: String)
    ensures
        r@ == spec_joined_sql(preds.deep_view()),
{
    let ghost dv: Seq<PredicateModel> = preds.deep_view();
    let mut s: String = String::new();
    let mut i: usize = 0;
    proof {
        assert(dv.subrange(0, 0) =~= Seq::<PredicateModel>::empty());
    }
    while i < preds.len()
        invariant
            0 <= i <= preds.len(),
            dv == preds.deep_view(),
            dv.len() == preds.len(),
            s@ == spec_joined_sql(dv.subrange(0, i as int)),
        decreases preds.len() - i,
    {
        let frag: String = fragment_sql(&preds[i]);
        proof {
            assert(dv.subrange(0, i as int + 1).drop_last() =~= dv.subrange(0, i as int));
            assert(dv.subrange(0, i as int + 1).last() == dv[i as int]);
        }
        if i > 0 {
            s.append(" and ");
        }
        s.append(frag.as_str());
        i = i + 1;
    }
    proof {
        assert(dv.subrange(0, dv.len() as int) =~= dv);
    }
    s
}

/// Collects the bound values of a predicate set, in placeholder order.
pub fn collect_params(preds: &Vec<Predicate>) -> (r: Vec<SqlParam>)
    ensures
        r.deep_view() == spec_all_params(preds.deep_view()),
{
    let ghost dv: Seq<PredicateModel> = preds.deep_view();
    let mut out: Vec<SqlParam> = Vec::new();
    let mut i: usize = 0;
    proof {
        assert(dv.subrange(0, 0) =~= Seq::<PredicateModel>::empty());
        assert(out.deep_view() =~= Seq::<SqlParamModel>::empty());
    }
    while i < preds.len()
        invariant
            0 <= i <= preds.len(),
            dv == preds.deep_view(),
            dv.len() == preds.len(),
            out.deep_view() == spec_all_params(dv.subrange(0, i as int)),
        decreases preds.len() - i,
    {
        proof {
            assert(dv.subrange(0, i as int + 1).drop_last() =~= dv.subrange(0, i as int));
            assert(dv.subrange(0, i as int + 1).last() == dv[i as int]);
        }
        push_fragment_params(&mut out, &preds[i]);
        i = i + 1;
    }
    proof {
        assert(dv.subrange(0, dv.len() as int) =~= dv);
    }
    out
}

/// One search, compiled: a count query and a page query over the same
/// condition, with their bound values.
pub struct SearchPlan {
    pub count_query: String,
    pub count_params: Vec<SqlParam>,
    pub page_query: String,
    pub page_params: Vec<SqlParam>,
}

/// Compiles a predicate set and the paging parameters into the two
/// queries of one search.  The page parameters are trusted integers from
/// the caller; the product must fit 64-bit signed arithmetic, and
/// negative values yield storage-engine-defined behaviour, not
/// core-defined behaviour.
pub fn plan_search(table: Table, preds: &Vec<Predicate>, page: i64, per_page: i64) -> (r:
    SearchPlan)
    requires
        i64::MIN <= page * per_page <= i64::MAX,
    ensures
        r.count_query@ == spec_count_query(table, spec_joined_sql(preds.deep_view())),
        r.count_params.deep_view() == spec_all_params(preds.deep_view()),
        r.page_query@ == spec_page_query(table, spec_joined_sql(preds.deep_view())),
        r.page_params.deep_view() == spec_all_params(preds.deep_view()) + seq![
            SqlParamModel::Int(per_page as int),
            SqlParamModel::Int(page * per_page),
        ],
{
    let cond: String = joined_sql(preds);
    let mut count_query: String = "select count(*) from ".to_owned();
    count_query.append(table_sql(table));
    count_query.append(" where ");
    count_query.append(cond.as_str());
    let mut page_query: String = "select * from ".to_owned();
    page_query.append(table_sql(table));
    page_query.append(" where ");
    page_query.append(cond.as_str());
    page_query.append(" order by popularity desc, id desc limit ? offset ?");
    let count_params: Vec<SqlParam> = collect_params(preds);
    let mut page_params: Vec<SqlParam> = collect_params(preds);
    let offset: i64 = page * per_page;
    page_params.push(SqlParam::Int(per_page));
    page_params.push(SqlParam::Int(offset));
    proof {
        assert(page_params.deep_view() =~= spec_all_params(preds.deep_view()) + seq![
            SqlParamModel::Int(per_page as int),
            SqlParamModel::Int(page * per_page),
        ]);
    }
    SearchPlan { count_query, count_params, page_query, page_params }
}

} // verus!
