use isuumo_core::catalog::{
    check_range_condition, get_range, parse_i64, ChairSearchCondition, EstateSearchCondition,
    ListCondition, Range, RangeCondition,
};
use isuumo_core::error::{SearchError, SearchField};
use isuumo_core::predicate::{
    build_chair_predicates, build_estate_predicates, ChairSearchParams, EstateSearchParams,
    Predicate, SqlColumn,
};
use isuumo_core::text::{contains_sub, split_commas};

fn ranges(spec: &[(i64, i64, i64)]) -> RangeCondition {
    RangeCondition {
        prefix: String::new(),
        suffix: String::new(),
        ranges: spec
            .iter()
            .map(|&(id, min, max)| Range { id, min, max })
            .collect(),
    }
}

fn chair_condition() -> ChairSearchCondition {
    ChairSearchCondition {
        width: ranges(&[(0, -1, 80), (1, 80, 110), (2, 110, -1)]),
        height: ranges(&[(0, -1, 80), (1, 80, -1)]),
        depth: ranges(&[(0, -1, 80), (1, 80, -1)]),
        price: ranges(&[(0, -1, 10000), (1, 10000, 20000), (2, 20000, -1)]),
        color: ListCondition { list: vec!["black".to_owned(), "white".to_owned()] },
        feature: ListCondition { list: vec!["reclining".to_owned()] },
        kind: ListCondition { list: vec!["office".to_owned()] },
    }
}

fn estate_condition() -> EstateSearchCondition {
    EstateSearchCondition {
        door_width: ranges(&[(0, -1, 80), (1, 80, -1)]),
        door_height: ranges(&[(0, -1, 80), (1, 80, -1)]),
        rent: ranges(&[(0, -1, 50000), (1, 50000, 100000), (2, 100000, -1)]),
        feature: ListCondition { list: vec!["balcony".to_owned()] },
    }
}

fn empty_chair_params() -> ChairSearchParams {
    ChairSearchParams {
        price_range_id: String::new(),
        height_range_id: String::new(),
        width_range_id: String::new(),
        depth_range_id: String::new(),
        kind: String::new(),
        color: String::new(),
        features: String::new(),
        page: 0,
        per_page: 10,
    }
}

fn empty_estate_params() -> EstateSearchParams {
    EstateSearchParams {
        door_height_range_id: String::new(),
        door_width_range_id: String::new(),
        rent_range_id: String::new(),
        features: String::new(),
        page: 0,
        per_page: 10,
    }
}

#[test]
fn parse_accepts_plain_digits() {
    assert_eq!(parse_i64("1"), Some(1));
    assert_eq!(parse_i64("0"), Some(0));
    assert_eq!(parse_i64("007"), Some(7));
    assert_eq!(parse_i64("9223372036854775807"), Some(i64::MAX));
}

#[test]
fn parse_accepts_signs() {
    assert_eq!(parse_i64("+3"), Some(3));
    assert_eq!(parse_i64("-1"), Some(-1));
    assert_eq!(parse_i64("-9223372036854775808"), Some(i64::MIN));
}

#[test]
fn parse_rejects_malformed_and_overflowing() {
    assert_eq!(parse_i64(""), None);
    assert_eq!(parse_i64("+"), None);
    assert_eq!(parse_i64("-"), None);
    assert_eq!(parse_i64("abc"), None);
    assert_eq!(parse_i64("12a"), None);
    assert_eq!(parse_i64("1 2"), None);
    assert_eq!(parse_i64("9223372036854775808"), None);
    assert_eq!(parse_i64("-9223372036854775809"), None);
    assert_eq!(parse_i64("99999999999999999999999"), None);
}

#[test]
fn get_range_looks_up_by_index() {
    let cond = ranges(&[(0, -1, 80), (1, 80, 110), (2, 110, -1)]);
    assert_eq!(get_range(&cond, "1"), Some(Range { id: 1, min: 80, max: 110 }));
    assert_eq!(get_range(&cond, "0"), Some(Range { id: 0, min: -1, max: 80 }));
}

#[test]
fn get_range_rejects_out_of_bounds_and_non_numeric() {
    let cond = ranges(&[(0, -1, 80), (1, 80, 110)]);
    assert_eq!(get_range(&cond, "2"), None);
    assert_eq!(get_range(&cond, "-1"), None);
    assert_eq!(get_range(&cond, "x"), None);
    assert_eq!(get_range(&cond, ""), None);
}

#[test]
fn range_condition_invariant_checked() {
    assert!(check_range_condition(&ranges(&[(0, -1, 80), (1, 80, -1)])));
    assert!(!check_range_condition(&ranges(&[(1, -1, 80), (0, 80, -1)])));
}

#[test]
fn split_keeps_empty_tokens() {
    let toks = split_commas("a,,b");
    let toks: Vec<&str> = toks.iter().map(|s| s.as_str()).collect();
    assert_eq!(toks, vec!["a", "", "b"]);
    let single = split_commas("solo");
    assert_eq!(single.len(), 1);
    assert_eq!(single[0], "solo");
}

#[test]
fn substring_search() {
    assert!(contains_sub("air conditioner,balcony", "balcony"));
    assert!(contains_sub("balcony", ""));
    assert!(!contains_sub("balcony", "pool"));
    assert!(!contains_sub("po", "pool"));
}

#[test]
fn bounded_range_emits_both_fragments() {
    let cond = chair_condition();
    let mut q = empty_chair_params();
    q.price_range_id = "1".to_owned();
    let preds = build_chair_predicates(&cond, &q).unwrap();
    assert_eq!(preds.len(), 3);
    assert!(matches!(preds[0], Predicate::RangeGeq(SqlColumn::Price, 10000)));
    assert!(matches!(preds[1], Predicate::RangeLt(SqlColumn::Price, 20000)));
    assert!(matches!(preds[2], Predicate::StockPositive));
}

#[test]
fn unbounded_minimum_emits_only_maximum_fragment() {
    let cond = chair_condition();
    let mut q = empty_chair_params();
    q.price_range_id = "0".to_owned();
    let preds = build_chair_predicates(&cond, &q).unwrap();
    assert_eq!(preds.len(), 2);
    assert!(matches!(preds[0], Predicate::RangeLt(SqlColumn::Price, 10000)));
    assert!(matches!(preds[1], Predicate::StockPositive));
}

#[test]
fn unbounded_maximum_emits_only_minimum_fragment() {
    let cond = chair_condition();
    let mut q = empty_chair_params();
    q.price_range_id = "2".to_owned();
    let preds = build_chair_predicates(&cond, &q).unwrap();
    assert_eq!(preds.len(), 2);
    assert!(matches!(preds[0], Predicate::RangeGeq(SqlColumn::Price, 20000)));
    assert!(matches!(preds[1], Predicate::StockPositive));
}

#[test]
fn invalid_range_identifier_names_the_field() {
    let cond = chair_condition();
    let mut q = empty_chair_params();
    q.price_range_id = "9".to_owned();
    assert_eq!(
        build_chair_predicates(&cond, &q),
        Err(SearchError::InvalidRangeIdentifier(SearchField::Price))
    );
    let mut q = empty_chair_params();
    q.height_range_id = "x".to_owned();
    assert_eq!(
        build_chair_predicates(&cond, &q),
        Err(SearchError::InvalidRangeIdentifier(SearchField::Height))
    );
    let mut q = empty_chair_params();
    q.depth_range_id = "-1".to_owned();
    assert_eq!(
        build_chair_predicates(&cond, &q),
        Err(SearchError::InvalidRangeIdentifier(SearchField::Depth))
    );
}

#[test]
fn empty_chair_search_is_rejected() {
    let cond = chair_condition();
    let q = empty_chair_params();
    assert_eq!(build_chair_predicates(&cond, &q), Err(SearchError::EmptySearchCondition));
}

#[test]
fn empty_estate_search_is_rejected() {
    let cond = estate_condition();
    let q = empty_estate_params();
    assert_eq!(build_estate_predicates(&cond, &q), Err(SearchError::EmptySearchCondition));
}

#[test]
fn categorical_parameters_accepted_as_is() {
    let cond = chair_condition();
    let mut q = empty_chair_params();
    q.kind = "unknown-kind".to_owned();
    q.color = "chartreuse".to_owned();
    let preds = build_chair_predicates(&cond, &q).unwrap();
    assert_eq!(preds.len(), 3);
    match &preds[0] {
        Predicate::Equals(SqlColumn::Kind, v) => assert_eq!(v, "unknown-kind"),
        other => panic!("unexpected predicate {:?}", other),
    }
    match &preds[1] {
        Predicate::Equals(SqlColumn::Color, v) => assert_eq!(v, "chartreuse"),
        other => panic!("unexpected predicate {:?}", other),
    }
}

#[test]
fn feature_tokens_are_conjunctive_and_kept_empty() {
    let cond = estate_condition();
    let mut q = empty_estate_params();
    q.features = "balcony,,pets ok".to_owned();
    let preds = build_estate_predicates(&cond, &q).unwrap();
    assert_eq!(preds.len(), 3);
    let toks: Vec<&str> = preds
        .iter()
        .map(|p| match p {
            Predicate::ContainsFeature(t) => t.as_str(),
            _ => panic!("expected a feature predicate"),
        })
        .collect();
    assert_eq!(toks, vec!["balcony", "", "pets ok"]);
}

#[test]
fn fragments_follow_catalog_field_order() {
    let cond = estate_condition();
    let mut q = empty_estate_params();
    q.rent_range_id = "1".to_owned();
    q.door_height_range_id = "1".to_owned();
    q.features = "balcony".to_owned();
    let preds = build_estate_predicates(&cond, &q).unwrap();
    assert_eq!(preds.len(), 4);
    assert!(matches!(preds[0], Predicate::RangeGeq(SqlColumn::DoorHeight, 80)));
    assert!(matches!(preds[1], Predicate::RangeGeq(SqlColumn::Rent, 50000)));
    assert!(matches!(preds[2], Predicate::RangeLt(SqlColumn::Rent, 100000)));
    assert!(matches!(preds[3], Predicate::ContainsFeature(_)));
}
