use actix_web_csp::PerformanceMetrics;
use actix_web_csp::PerformanceTimer;
use std::time::Duration;

#[test]
fn test_performance_metrics_creation() {
    let metrics = PerformanceMetrics::new();

    assert_eq!(metrics.header_generation_samples(), 0);
    assert_eq!(metrics.policy_hash_samples(), 0);
    assert_eq!(metrics.cache_hits() + metrics.cache_misses(), 0);
    assert_eq!(metrics.min_header_generation_ns(), 0);
    assert_eq!(metrics.max_header_generation_ns(), 0);
}

#[test]
fn test_performance_metrics_default() {
    let metrics = PerformanceMetrics::default();

    assert_eq!(metrics.header_generation_samples(), 0);
    assert_eq!(metrics.policy_hash_samples(), 0);
    assert_eq!(metrics.cache_hits() + metrics.cache_misses(), 0);
}

#[test]
fn test_performance_metrics_record_header_generation() {
    let mut metrics = PerformanceMetrics::new();

    metrics.record_header_generation(Duration::from_nanos(1000));
    assert_eq!(metrics.header_generation_total_ns(), 1000);
    assert_eq!(metrics.header_generation_samples(), 1);
    assert_eq!(metrics.min_header_generation_ns(), 1000);
    assert_eq!(metrics.max_header_generation_ns(), 1000);

    metrics.record_header_generation(Duration::from_nanos(2000));
    assert_eq!(metrics.header_generation_total_ns(), 3000);
    assert_eq!(metrics.header_generation_samples(), 2);
    assert_eq!(metrics.min_header_generation_ns(), 1000);
    assert_eq!(metrics.max_header_generation_ns(), 2000);
}

#[test]
fn test_performance_metrics_record_policy_hash() {
    let mut metrics = PerformanceMetrics::new();

    assert_eq!(metrics.policy_hash_samples(), 0);

    metrics.record_policy_hash(Duration::from_nanos(500));
    assert_eq!(metrics.policy_hash_total_ns(), 500);
    assert_eq!(metrics.policy_hash_samples(), 1);

    metrics.record_policy_hash(Duration::from_nanos(1500));
    assert_eq!(metrics.policy_hash_total_ns(), 2000);
    assert_eq!(metrics.policy_hash_samples(), 2);
}

#[test]
fn test_performance_metrics_cache_hit_rate() {
    let mut metrics = PerformanceMetrics::new();

    assert_eq!(metrics.cache_hits() + metrics.cache_misses(), 0);

    metrics.record_cache_hit();
    metrics.record_cache_hit();
    metrics.record_cache_hit();
    metrics.record_cache_miss();

    assert_eq!(metrics.cache_hits(), 3);
    assert_eq!(metrics.cache_misses(), 1);
}

#[test]
fn test_performance_metrics_reset() {
    let mut metrics = PerformanceMetrics::new();

    metrics.record_header_generation(Duration::from_nanos(1000));
    metrics.record_policy_hash(Duration::from_nanos(500));
    metrics.record_cache_hit();
    metrics.record_cache_miss();

    assert!(metrics.header_generation_total_ns() > 0);
    assert!(metrics.policy_hash_total_ns() > 0);
    assert!(metrics.cache_hits() > 0);

    metrics.reset();

    assert_eq!(metrics.header_generation_samples(), 0);
    assert_eq!(metrics.policy_hash_samples(), 0);
    assert_eq!(metrics.cache_hits() + metrics.cache_misses(), 0);
    assert_eq!(metrics.min_header_generation_ns(), 0);
    assert_eq!(metrics.max_header_generation_ns(), 0);
}

#[test]
fn test_performance_timer_creation() {
    let timer = PerformanceTimer::new();

    let elapsed = timer.elapsed();
    assert!(elapsed >= Duration::from_nanos(0));
}

#[test]
fn test_performance_timer_default() {
    let timer = PerformanceTimer::default();

    let elapsed = timer.elapsed();
    assert!(elapsed >= Duration::from_nanos(0));
}

#[test]
fn shortest_and_longest_generation_are_kept() {
    let mut metrics = PerformanceMetrics::new();
    metrics.record_header_generation(Duration::from_nanos(700));
    metrics.record_header_generation(Duration::from_nanos(300));
    metrics.record_header_generation(Duration::from_millis(2));
    assert_eq!(metrics.min_header_generation_ns(), 300);
    assert_eq!(metrics.max_header_generation_ns(), 2_000_000);
    assert_eq!(metrics.header_generation_total_ns(), 2_001_000);
    assert_eq!(metrics.header_generation_samples(), 3);
}
