use weatherlog::query::{query, query_window};
use weatherlog::sampler::{pause_millis, record_sample, SampleOutcome};
use weatherlog::store::{Store, StoreError};
use weatherlog::Reading;

fn reading(timestamp: i64, temperature_q: i64, humidity_q: i64) -> Reading {
    Reading { timestamp, temperature_q, humidity_q }
}

#[test]
fn open_bad_location_is_fatal() {
    let r = Store::open("/nonexistent-dir-for-weatherlog/db.sqlite");
    assert!(matches!(r, Err(StoreError::StorageUnavailable)));
}

#[test]
fn range_is_inclusive_at_both_bounds() {
    let mut store = Store::open(":memory:").unwrap();
    store.insert(reading(99, 1, 1)).unwrap();
    store.insert(reading(100, 2, 2)).unwrap();
    store.insert(reading(200, 3, 3)).unwrap();
    store.insert(reading(201, 4, 4)).unwrap();
    let rows = store.select_range(100, 200).unwrap();
    assert_eq!(rows.len(), 2);
    assert_eq!(rows[0].timestamp, 100);
    assert_eq!(rows[1].timestamp, 200);
}

#[test]
fn inverted_range_is_empty() {
    let mut store = Store::open(":memory:").unwrap();
    store.insert(reading(100, 1, 1)).unwrap();
    let rows = store.select_range(200, 100).unwrap();
    assert!(rows.is_empty());
}

#[test]
fn select_orders_out_of_order_inserts() {
    let mut store = Store::open(":memory:").unwrap();
    store.insert(reading(300, 3, 3)).unwrap();
    store.insert(reading(100, 1, 1)).unwrap();
    store.insert(reading(200, 2, 2)).unwrap();
    let rows = store.select_range(0, 400).unwrap();
    let times: Vec<i64> = rows.iter().map(|r| r.timestamp).collect();
    assert_eq!(times, vec![100, 200, 300]);
}

#[test]
fn duplicate_timestamp_fails_and_keeps_first() {
    let mut store = Store::open(":memory:").unwrap();
    store.insert(reading(100, 88, 200)).unwrap();
    let second = store.insert(reading(100, 96, 220));
    assert!(matches!(second, Err(StoreError::DuplicateTimestamp)));
    let rows = store.select_range(100, 100).unwrap();
    assert_eq!(rows.len(), 1);
    assert_eq!(rows[0].temperature_q, 88);
    assert_eq!(rows[0].humidity_q, 200);
}

#[test]
fn record_sample_skips_duplicates() {
    let mut store = Store::open(":memory:").unwrap();
    assert_eq!(record_sample(&mut store, reading(100, 88, 200)), SampleOutcome::Stored);
    assert_eq!(
        record_sample(&mut store, reading(100, 96, 220)),
        SampleOutcome::SkippedDuplicate
    );
    let rows = store.select_range(100, 100).unwrap();
    assert_eq!(rows[0].temperature_q, 88);
}

#[test]
fn end_to_end_two_readings() {
    // 22.0 degrees C quantizes to 88, 50.0 percent to 200;
    // 24.0 degrees C to 96, 55.0 percent to 220.
    let mut store = Store::open(":memory:").unwrap();
    store.insert(reading(100, 88, 200)).unwrap();
    store.insert(reading(200, 96, 220)).unwrap();
    let out = query_window(&store, 100, 200).unwrap();
    assert_eq!(out.samples.len(), 2);
    assert_eq!(out.samples[0].timestamp, 100);
    assert_eq!(out.samples[1].timestamp, 200);

    let n = out.stats.sample_count as f32;
    let average_temperature = out.stats.temperature_sum_q as f32 / (4.0 * n);
    let average_humidity = out.stats.humidity_sum_q as f32 / (4.0 * n);
    let median_temperature = out.stats.median_temperature_q.unwrap() as f32 / 4.0;
    let median_humidity = out.stats.median_humidity_q.unwrap() as f32 / 4.0;
    assert_eq!(average_temperature, 23.0);
    assert_eq!(median_temperature, 24.0);
    assert_eq!(average_humidity, 52.5);
    assert_eq!(median_humidity, 55.0);
}

#[test]
fn query_with_explicit_bounds() {
    let mut store = Store::open(":memory:").unwrap();
    store.insert(reading(100, 88, 200)).unwrap();
    store.insert(reading(200, 96, 220)).unwrap();
    store.insert(reading(5000, 1, 1)).unwrap();
    let out = query(&store, Some(100), Some(200)).unwrap();
    assert_eq!(out.start, 100);
    assert_eq!(out.end, 200);
    assert_eq!(out.samples.len(), 2);
}

#[test]
fn query_defaults_to_last_hour() {
    let mut store = Store::open(":memory:").unwrap();
    let now = weatherlog::clock::time_to_unix(weatherlog::clock::system_now());
    store.insert(reading(now - 10, 88, 200)).unwrap();
    store.insert(reading(now - 7200, 96, 220)).unwrap();
    let out = query(&store, None, None).unwrap();
    assert_eq!(out.end - out.start, 3600);
    assert_eq!(out.samples.len(), 1);
    assert_eq!(out.samples[0].timestamp, now - 10);
}

#[test]
fn query_with_end_only_reaches_back_one_hour() {
    let mut store = Store::open(":memory:").unwrap();
    store.insert(reading(996400, 1, 1)).unwrap();
    store.insert(reading(1000000, 2, 2)).unwrap();
    store.insert(reading(1000001, 3, 3)).unwrap();
    let out = query(&store, None, Some(1000000)).unwrap();
    assert_eq!(out.start, 996400);
    assert_eq!(out.end, 1000000);
    assert_eq!(out.samples.len(), 2);
}

#[test]
fn pause_compensates_for_elapsed_time() {
    assert_eq!(pause_millis(60000, 1000), 59000);
    assert_eq!(pause_millis(60000, 0), 60000);
    assert_eq!(pause_millis(1000, 1000), 0);
    assert_eq!(pause_millis(1000, 5000), 0);
}

#[test]
fn unix_time_is_nonnegative() {
    let now = weatherlog::clock::time_to_unix(weatherlog::clock::system_now());
    assert!(now >= 0);
}
