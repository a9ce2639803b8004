use weather_cache::record::{is_within, CacheQuery, WeatherRecord, DEFAULT_TOLERANCE};
use weather_cache::store::{CoordinateStore, StorageError};

fn stamped(created_at: i64) -> WeatherRecord {
    WeatherRecord::new(40_000_000, -3_000_000, 15_200, created_at)
}

fn placed(latitude: i64, longitude: i64) -> WeatherRecord {
    WeatherRecord::new(latitude, longitude, 20_000, 1_700_000_000)
}

fn contents(store: &CoordinateStore) -> Vec<WeatherRecord> {
    let mut all = Vec::new();
    let mut index = 0;
    while let Some(record) = store.get(index) {
        all.push(record);
        index += 1;
    }
    all
}

#[test]
fn new_store_is_empty() {
    let store = CoordinateStore::new(4);
    assert!(store.is_empty());
    assert_eq!(store.len(), 0);
    assert_eq!(store.limit(), 4);
    assert_eq!(store.get(0), None);
}

#[test]
fn new_record_has_no_id() {
    let record = WeatherRecord::new(1, 2, 3, 4);
    assert_eq!(
        record,
        WeatherRecord { id: None, latitude: 1, longitude: 2, temperature: 3, created_at: 4 }
    );
    let query = CacheQuery::new(5, 6);
    assert_eq!(query, CacheQuery { latitude: 5, longitude: 6 });
}

#[test]
fn window_is_open_on_both_sides() {
    assert!(is_within(40_000_000, 40_000_000, DEFAULT_TOLERANCE));
    assert!(is_within(40_499_999, 40_000_000, DEFAULT_TOLERANCE));
    assert!(is_within(39_500_001, 40_000_000, DEFAULT_TOLERANCE));
    assert!(!is_within(40_500_000, 40_000_000, DEFAULT_TOLERANCE));
    assert!(!is_within(39_500_000, 40_000_000, DEFAULT_TOLERANCE));
    assert!(!is_within(41_000_000, 40_000_000, DEFAULT_TOLERANCE));
}

#[test]
fn window_of_no_width_holds_nothing() {
    assert!(!is_within(7, 7, 0));
    assert!(!is_within(7, 7, -1));
    assert!(is_within(7, 7, 1));
}

#[test]
fn window_is_exact_at_the_ends_of_the_range() {
    assert!(is_within(i64::MAX, i64::MAX, 1));
    assert!(is_within(i64::MIN, i64::MIN, 1));
    assert!(!is_within(i64::MIN, i64::MAX, i64::MAX));
    assert!(is_within(1, i64::MAX, i64::MAX));
    assert!(!is_within(0, i64::MAX, i64::MAX));
    assert!(!is_within(i64::MAX, 0, i64::MIN));
    assert!(is_within(-2, i64::MIN, i64::MAX));
    assert!(!is_within(-1, i64::MIN, i64::MAX));
}

#[test]
fn record_needs_both_coordinates_inside() {
    let record = placed(40_100_000, -3_100_000);
    assert!(record.is_near(40_000_000, -3_000_000, DEFAULT_TOLERANCE));
    assert!(!record.is_near(40_700_000, -3_000_000, DEFAULT_TOLERANCE));
    assert!(!record.is_near(40_000_000, -3_700_000, DEFAULT_TOLERANCE));
    assert!(!record.is_near(41_000_000, -4_000_000, DEFAULT_TOLERANCE));
}

#[test]
fn find_near_returns_matches_in_writing_order() {
    let mut store = CoordinateStore::new(8);
    let far = placed(10_000_000, 10_000_000);
    let first = placed(40_200_000, -3_000_000);
    let edge = placed(40_500_000, -3_000_000);
    let second = placed(39_800_000, -2_900_000);
    for record in [far, first, edge, second] {
        assert!(store.insert(record).is_ok());
    }
    let found = store.find_near(40_000_000, -3_000_000, DEFAULT_TOLERANCE);
    assert_eq!(found, vec![first, second]);
    assert_eq!(store.len(), 4);
}

#[test]
fn find_near_on_empty_store_finds_nothing() {
    let store = CoordinateStore::new(8);
    assert_eq!(store.find_near(40_000_000, -3_000_000, DEFAULT_TOLERANCE), Vec::new());
}

#[test]
fn insert_appends_and_never_overwrites() {
    let mut store = CoordinateStore::new(8);
    let older = WeatherRecord::new(40_000_000, -3_000_000, 15_200, 100);
    let newer = WeatherRecord::new(40_000_000, -3_000_000, 18_000, 200);
    assert_eq!(store.insert(older), Ok(()));
    assert_eq!(store.insert(newer), Ok(()));
    assert_eq!(contents(&store), vec![older, newer]);
}

#[test]
fn insert_into_full_store_is_refused() {
    let mut store = CoordinateStore::new(1);
    let kept = stamped(1);
    assert!(store.insert(kept).is_ok());
    let refused = store.insert(stamped(2));
    assert_eq!(refused, Err(StorageError { detail: "the table is full".to_string() }));
    assert_eq!(contents(&store), vec![kept]);
    let mut none = CoordinateStore::new(0);
    assert!(none.insert(kept).is_err());
    assert!(none.is_empty());
}

#[test]
fn eviction_removes_only_records_older_than_ttl() {
    let t: i64 = 1_700_000_000;
    let ttl: i64 = 60;
    let mut store = CoordinateStore::new(16);
    assert!(store.insert(stamped(t - 100)).is_ok());
    assert!(store.insert(stamped(t - 50)).is_ok());
    assert!(store.insert(stamped(t - 1)).is_ok());
    let deleted = store.delete_expired(t - ttl, 10);
    assert_eq!(deleted, 1);
    assert_eq!(contents(&store), vec![stamped(t - 50), stamped(t - 1)]);
}

#[test]
fn eviction_cutoff_is_inclusive() {
    let mut store = CoordinateStore::new(16);
    assert!(store.insert(stamped(940)).is_ok());
    assert!(store.insert(stamped(941)).is_ok());
    assert_eq!(store.delete_expired(940, 10), 1);
    assert_eq!(contents(&store), vec![stamped(941)]);
}

#[test]
fn eviction_is_bounded_by_the_batch() {
    let mut store = CoordinateStore::new(64);
    for age in 0..25 {
        assert!(store.insert(stamped(100 + age)).is_ok());
    }
    assert_eq!(store.delete_expired(1_000, 10), 10);
    assert_eq!(store.len(), 15);
    assert_eq!(store.get(0), Some(stamped(110)));
    assert_eq!(store.delete_expired(1_000, 10), 10);
    assert_eq!(store.len(), 5);
    assert_eq!(store.delete_expired(1_000, 10), 5);
    assert!(store.is_empty());
    assert_eq!(store.delete_expired(1_000, 10), 0);
}

#[test]
fn eviction_takes_the_earliest_written_and_keeps_order() {
    let mut store = CoordinateStore::new(16);
    let stamps = [5, 500, 6, 600, 7, 700, 8];
    for stamp in stamps {
        assert!(store.insert(stamped(stamp)).is_ok());
    }
    assert_eq!(store.delete_expired(100, 3), 3);
    assert_eq!(contents(&store), vec![stamped(500), stamped(600), stamped(700), stamped(8)]);
    assert_eq!(store.delete_expired(100, 3), 1);
    assert_eq!(contents(&store), vec![stamped(500), stamped(600), stamped(700)]);
}

#[test]
fn eviction_with_empty_batch_or_nothing_expired_changes_nothing() {
    let mut store = CoordinateStore::new(16);
    assert!(store.insert(stamped(10)).is_ok());
    assert!(store.insert(stamped(20)).is_ok());
    assert_eq!(store.delete_expired(100, 0), 0);
    assert_eq!(store.delete_expired(9, 10), 0);
    assert_eq!(contents(&store), vec![stamped(10), stamped(20)]);
    let mut empty = CoordinateStore::new(16);
    assert_eq!(empty.delete_expired(i64::MAX, 10), 0);
}

#[test]
fn eviction_makes_room_again() {
    let mut store = CoordinateStore::new(2);
    assert!(store.insert(stamped(1)).is_ok());
    assert!(store.insert(stamped(2)).is_ok());
    assert!(store.insert(stamped(3)).is_err());
    assert_eq!(store.delete_expired(1, 10), 1);
    assert!(store.insert(stamped(3)).is_ok());
    assert_eq!(contents(&store), vec![stamped(2), stamped(3)]);
    assert!(stamped(2).is_expired(2));
    assert!(!stamped(2).is_expired(1));
}
