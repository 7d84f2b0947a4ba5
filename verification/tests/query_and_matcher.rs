use isuumo_core::catalog::{ChairSearchCondition, ListCondition, Range, RangeCondition};
use isuumo_core::error::SearchError;
use isuumo_core::geo::{nazotte_result, plan_nazotte, polygon_text, GeoCoordinate};
use isuumo_core::matcher::{admissible_openings, fits, plan_recommendation, sort3};
use isuumo_core::model::{Chair, Estate};
use isuumo_core::predicate::{build_chair_predicates, ChairSearchParams, Predicate, SqlColumn};
use isuumo_core::query::{collect_params, joined_sql, plan_search, SqlParam, Table};

fn chair(id: i64, price: i64, stock: i64) -> Chair {
    Chair {
        id,
        name: format!("chair-{}", id),
        description: String::new(),
        thumbnail: String::new(),
        price,
        height: 50,
        width: 60,
        depth: 80,
        color: "black".to_owned(),
        features: "reclining,casters".to_owned(),
        kind: "office".to_owned(),
        popularity: 10,
        stock,
    }
}

fn estate(id: i64, rent: i64) -> Estate {
    Estate {
        id,
        name: format!("estate-{}", id),
        description: String::new(),
        thumbnail: String::new(),
        address: String::new(),
        latitude: "35.6".to_owned(),
        longitude: "139.7".to_owned(),
        rent,
        door_height: 100,
        door_width: 90,
        features: "balcony".to_owned(),
        popularity: 5,
    }
}

#[test]
fn joined_condition_text_is_exact() {
    let preds = vec![
        Predicate::RangeGeq(SqlColumn::Price, 10000),
        Predicate::RangeLt(SqlColumn::Price, 20000),
        Predicate::Equals(SqlColumn::Color, "black".to_owned()),
        Predicate::ContainsFeature("casters".to_owned()),
        Predicate::StockPositive,
    ];
    assert_eq!(
        joined_sql(&preds),
        "price >= ? and price < ? and color = ? and features like concat('%', ?, '%') and stock > 0"
    );
    assert_eq!(
        collect_params(&preds),
        vec![
            SqlParam::Int(10000),
            SqlParam::Int(20000),
            SqlParam::Text("black".to_owned()),
            SqlParam::Text("casters".to_owned()),
        ]
    );
}

#[test]
fn search_plan_queries_and_paging() {
    let preds = vec![Predicate::RangeGeq(SqlColumn::Rent, 50000)];
    let plan = plan_search(Table::Estate, &preds, 3, 25);
    assert_eq!(plan.count_query, "select count(*) from estate where rent >= ?");
    assert_eq!(
        plan.page_query,
        "select * from estate where rent >= ? order by popularity desc, id desc limit ? offset ?"
    );
    assert_eq!(plan.count_params, vec![SqlParam::Int(50000)]);
    assert_eq!(
        plan.page_params,
        vec![SqlParam::Int(50000), SqlParam::Int(25), SqlParam::Int(75)]
    );
}

#[test]
fn end_to_end_price_bracket_plan() {
    let cond = ChairSearchCondition {
        width: RangeCondition { prefix: String::new(), suffix: String::new(), ranges: vec![] },
        height: RangeCondition { prefix: String::new(), suffix: String::new(), ranges: vec![] },
        depth: RangeCondition { prefix: String::new(), suffix: String::new(), ranges: vec![] },
        price: RangeCondition {
            prefix: String::new(),
            suffix: String::new(),
            ranges: vec![
                Range { id: 0, min: -1, max: 10000 },
                Range { id: 1, min: 10000, max: 20000 },
            ],
        },
        color: ListCondition { list: vec![] },
        feature: ListCondition { list: vec![] },
        kind: ListCondition { list: vec![] },
    };
    let q = ChairSearchParams {
        price_range_id: "1".to_owned(),
        height_range_id: String::new(),
        width_range_id: String::new(),
        depth_range_id: String::new(),
        kind: String::new(),
        color: String::new(),
        features: String::new(),
        page: 0,
        per_page: 20,
    };
    let preds = build_chair_predicates(&cond, &q).unwrap();
    let plan = plan_search(Table::Chair, &preds, q.page, q.per_page);
    assert_eq!(
        plan.count_query,
        "select count(*) from chair where price >= ? and price < ? and stock > 0"
    );
    assert_eq!(
        plan.page_query,
        "select * from chair where price >= ? and price < ? and stock > 0 order by popularity desc, id desc limit ? offset ?"
    );
    assert_eq!(
        plan.page_params,
        vec![
            SqlParam::Int(10000),
            SqlParam::Int(20000),
            SqlParam::Int(20),
            SqlParam::Int(0),
        ]
    );
}

#[test]
fn sort3_orders_ascending() {
    assert_eq!(sort3(80, 50, 60), (50, 60, 80));
    assert_eq!(sort3(50, 60, 80), (50, 60, 80));
    assert_eq!(sort3(7, 7, 3), (3, 7, 7));
}

#[test]
fn admissible_pairs_for_example_dimensions() {
    // dimensions [80, 50, 60]: the admissible pairs are exactly (50, 60) and (60, 50)
    assert_eq!(admissible_openings(80, 50, 60), ((50, 60), (60, 50)));
}

#[test]
fn admissible_pairs_invariant_under_permutation() {
    let expect = ((50, 60), (60, 50));
    assert_eq!(admissible_openings(80, 50, 60), expect);
    assert_eq!(admissible_openings(50, 60, 80), expect);
    assert_eq!(admissible_openings(60, 80, 50), expect);
    assert_eq!(admissible_openings(50, 80, 60), expect);
    assert_eq!(admissible_openings(60, 50, 80), expect);
    assert_eq!(admissible_openings(80, 60, 50), expect);
}

#[test]
fn fit_uses_smallest_and_middle_dimension() {
    assert!(fits(50, 60, 80, 50, 60));
    assert!(fits(60, 50, 80, 50, 60));
    assert!(!fits(50, 50, 80, 50, 60));
    assert!(!fits(49, 60, 80, 50, 60));
    // the largest dimension is irrelevant
    assert!(fits(50, 60, 9999, 50, 60));
}

#[test]
fn recommendation_plan_params() {
    let c = chair(7, 15000, 3);
    let plan = plan_recommendation(&Some(c)).unwrap();
    assert_eq!(
        plan.query,
        "select * from estate where (door_width >= ? and door_height >= ?) or (door_width >= ? and door_height >= ?) order by popularity desc, id desc limit ?"
    );
    assert_eq!(
        plan.params,
        vec![
            SqlParam::Int(50),
            SqlParam::Int(60),
            SqlParam::Int(60),
            SqlParam::Int(50),
            SqlParam::Int(20),
        ]
    );
}

#[test]
fn recommendation_for_missing_item_is_a_client_error() {
    assert!(matches!(plan_recommendation(&None), Err(SearchError::ItemNotFound)));
}

#[test]
fn polygon_literal_is_verbatim() {
    let coords = vec![
        GeoCoordinate { latitude: "36.5".to_owned(), longitude: "137.2".to_owned() },
        GeoCoordinate { latitude: "36.6".to_owned(), longitude: "137.3".to_owned() },
        GeoCoordinate { latitude: "36.5".to_owned(), longitude: "137.2".to_owned() },
    ];
    assert_eq!(polygon_text(&coords), "'POLYGON((36.5 137.2,36.6 137.3,36.5 137.2))'");
    let q = plan_nazotte(&coords).unwrap();
    assert_eq!(
        q,
        "select * from estate where ST_Contains(ST_PolygonFromText('POLYGON((36.5 137.2,36.6 137.3,36.5 137.2))'), location) order by popularity desc, id desc"
    );
}

#[test]
fn empty_polygon_fails_before_any_query() {
    let coords: Vec<GeoCoordinate> = Vec::new();
    assert!(matches!(plan_nazotte(&coords), Err(SearchError::BadGeometryInput)));
}

#[test]
fn polygon_results_truncated_to_ceiling() {
    let many: Vec<Estate> = (1..=55).map(|i| estate(i, 1000 * i)).collect();
    let r = nazotte_result(many);
    assert_eq!(r.count, 50);
    assert_eq!(r.estates.len(), 50);
    assert_eq!(r.estates[0].id, 1);
    assert_eq!(r.estates[49].id, 50);

    let few: Vec<Estate> = (1..=3).map(|i| estate(i, 1000 * i)).collect();
    let r = nazotte_result(few);
    assert_eq!(r.count, 3);
    assert_eq!(r.estates.len(), 3);
}
