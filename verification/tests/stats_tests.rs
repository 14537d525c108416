use weatherlog::stats::{median, sum_values, window_stats};
use weatherlog::Reading;

#[test]
fn median_even_count_upper_middle() {
    let data: Vec<i64> = vec![1, 2, 3, 4];
    assert_eq!(median(&data), Some(3));
}

#[test]
fn median_odd_count() {
    let data: Vec<i64> = vec![1, 2, 3];
    assert_eq!(median(&data), Some(2));
}

#[test]
fn median_empty_is_undefined() {
    let data: Vec<i64> = vec![];
    assert_eq!(median(&data), None);
}

#[test]
fn median_single_element() {
    let data: Vec<i64> = vec![5];
    assert_eq!(median(&data), Some(5));
}

#[test]
fn median_unsorted_input() {
    let data: Vec<i64> = vec![9, 1, 7, 3, 5];
    assert_eq!(median(&data), Some(5));
    let data: Vec<i64> = vec![4, 2, 2, 4];
    assert_eq!(median(&data), Some(4));
}

#[test]
fn average_of_one_two_three() {
    let data: Vec<i64> = vec![1, 2, 3];
    let sum = sum_values(&data);
    assert_eq!(sum, 6);
    let mean = sum as f32 / data.len() as f32;
    assert_eq!(mean, 2.0);
}

#[test]
fn average_of_empty_is_undefined() {
    let data: Vec<i64> = vec![];
    assert_eq!(sum_values(&data), 0);
    // A zero count is what the transport renders as not-a-number.
    let mean = sum_values(&data) as f32 / data.len() as f32;
    assert!(mean.is_nan());
}

#[test]
fn sum_handles_extreme_values() {
    let data: Vec<i64> = vec![i64::MAX, i64::MAX, i64::MIN];
    let expected = i64::MAX as i128 + i64::MAX as i128 + i64::MIN as i128;
    assert_eq!(sum_values(&data), expected);
}

#[test]
fn window_stats_two_quantities_independent() {
    // Temperatures and humidities are ordered independently of each other.
    let samples = vec![
        Reading { timestamp: 1, temperature_q: 90, humidity_q: 100 },
        Reading { timestamp: 2, temperature_q: 80, humidity_q: 300 },
        Reading { timestamp: 3, temperature_q: 100, humidity_q: 200 },
    ];
    let stats = window_stats(&samples);
    assert_eq!(stats.sample_count, 3);
    assert_eq!(stats.temperature_sum_q, 270);
    assert_eq!(stats.humidity_sum_q, 600);
    assert_eq!(stats.median_temperature_q, Some(90));
    assert_eq!(stats.median_humidity_q, Some(200));
}

#[test]
fn window_stats_empty_window() {
    let samples: Vec<Reading> = vec![];
    let stats = window_stats(&samples);
    assert_eq!(stats.sample_count, 0);
    assert_eq!(stats.temperature_sum_q, 0);
    assert_eq!(stats.humidity_sum_q, 0);
    assert_eq!(stats.median_temperature_q, None);
    assert_eq!(stats.median_humidity_q, None);
}
