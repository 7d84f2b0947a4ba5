use isuumo_core::cache::{select_low_priced, sort_by_rent_id, LowPricedCache, LOW_PRICED_LIMIT};
use isuumo_core::model::{Chair, Estate};
use isuumo_core::predicate::{Predicate, SqlColumn};
use isuumo_core::purchase::{try_purchase, visible_chair};
use isuumo_core::semantics::{chair_matches, estate_matches};

fn estate(id: i64, rent: i64) -> Estate {
    Estate {
        id,
        name: format!("estate-{}", id),
        description: String::new(),
        thumbnail: String::new(),
        address: String::new(),
        latitude: "35.6".to_owned(),
        longitude: "139.7".to_owned(),
        rent,
        door_height: 100,
        door_width: 90,
        features: "balcony,pets ok".to_owned(),
        popularity: 5,
    }
}

fn chair(id: i64, price: i64, stock: i64) -> Chair {
    Chair {
        id,
        name: format!("chair-{}", id),
        description: String::new(),
        thumbnail: String::new(),
        price,
        height: 50,
        width: 60,
        depth: 80,
        color: "black".to_owned(),
        features: "reclining,casters".to_owned(),
        kind: "office".to_owned(),
        popularity: 10,
        stock,
    }
}

#[test]
fn cache_orders_by_rent_then_id() {
    let listings = vec![estate(1, 5000), estate(2, 3000), estate(3, 4000), estate(4, 3000)];
    let mut cache = LowPricedCache::new();
    cache.repopulate(listings);
    let snap = cache.read().unwrap();
    let order: Vec<(i64, i64)> = snap.iter().map(|e| (e.id, e.rent)).collect();
    assert_eq!(order, vec![(2, 3000), (4, 3000), (3, 4000), (1, 5000)]);
}

#[test]
fn cache_read_before_population_is_none() {
    let cache = LowPricedCache::new();
    assert!(cache.read().is_none());
}

#[test]
fn cache_stays_populated_across_refreshes() {
    let mut cache = LowPricedCache::new();
    cache.repopulate(vec![estate(1, 9000)]);
    assert!(cache.read().is_some());
    cache.repopulate(Vec::new());
    let snap = cache.read().unwrap();
    assert!(snap.is_empty());
}

#[test]
fn cache_keeps_at_most_the_limit() {
    let listings: Vec<Estate> = (1..=30).map(|i| estate(i, 100000 - 1000 * i)).collect();
    let snap = select_low_priced(listings, LOW_PRICED_LIMIT);
    assert_eq!(snap.len(), 20);
    // the cheapest survive: rents 70000 (id 30) upward
    assert_eq!(snap[0].id, 30);
    assert_eq!(snap[0].rent, 70000);
    assert_eq!(snap[19].id, 11);
    assert_eq!(snap[19].rent, 89000);
}

#[test]
fn sort_is_a_permutation() {
    let listings = vec![estate(9, 700), estate(2, 100), estate(5, 700), estate(1, 100)];
    let sorted = sort_by_rent_id(listings);
    let order: Vec<(i64, i64)> = sorted.iter().map(|e| (e.rent, e.id)).collect();
    assert_eq!(order, vec![(100, 1), (100, 2), (700, 5), (700, 9)]);
}

#[test]
fn purchase_race_one_winner() {
    // two attempts against one unit of stock, serialized by the row lock
    let first = try_purchase(1);
    assert_eq!(first, Some(0));
    let second = try_purchase(first.unwrap());
    assert_eq!(second, None);
}

#[test]
fn purchase_refused_out_of_stock() {
    assert_eq!(try_purchase(0), None);
    assert_eq!(try_purchase(-5), None);
    assert_eq!(try_purchase(2), Some(1));
}

#[test]
fn sold_out_chair_reads_as_missing() {
    assert!(visible_chair(None).is_none());
    assert!(visible_chair(Some(chair(1, 1000, 0))).is_none());
    let visible = visible_chair(Some(chair(2, 1000, 3))).unwrap();
    assert_eq!(visible.id, 2);
}

#[test]
fn chair_matching_follows_predicates() {
    let preds = vec![
        Predicate::RangeGeq(SqlColumn::Price, 10000),
        Predicate::RangeLt(SqlColumn::Price, 20000),
        Predicate::StockPositive,
    ];
    assert!(chair_matches(&chair(1, 15000, 2), &preds));
    assert!(!chair_matches(&chair(2, 15000, 0), &preds));
    assert!(!chair_matches(&chair(3, 9999, 2), &preds));
    assert!(!chair_matches(&chair(4, 20000, 2), &preds));
    assert!(chair_matches(&chair(5, 10000, 1), &preds));
}

#[test]
fn chair_matching_features_and_equality() {
    let preds = vec![
        Predicate::Equals(SqlColumn::Kind, "office".to_owned()),
        Predicate::ContainsFeature("casters".to_owned()),
    ];
    assert!(chair_matches(&chair(1, 100, 1), &preds));
    let mut other = chair(2, 100, 1);
    other.kind = "stool".to_owned();
    assert!(!chair_matches(&other, &preds));
    let mut bare = chair(3, 100, 1);
    bare.features = "reclining".to_owned();
    assert!(!chair_matches(&bare, &preds));
}

#[test]
fn estate_matching_follows_predicates() {
    let preds = vec![
        Predicate::RangeGeq(SqlColumn::Rent, 3000),
        Predicate::RangeLt(SqlColumn::Rent, 5000),
        Predicate::ContainsFeature("balcony".to_owned()),
    ];
    assert!(estate_matches(&estate(1, 4000), &preds));
    assert!(!estate_matches(&estate(2, 5000), &preds));
    let mut no_balcony = estate(3, 4000);
    no_balcony.features = "parking".to_owned();
    assert!(!estate_matches(&no_balcony, &preds));
}
