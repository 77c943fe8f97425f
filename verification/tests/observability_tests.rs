use std::time::Duration;

use context_manager::error::{ContextError, VectorDbError};
use context_manager::observability::health::{
    check_cache, check_circuit_breaker, check_embedding_service, check_vector_db, liveness,
    not_configured, overall_status, readiness, system_health, ComponentHealth, HealthChecker,
    HealthStatus,
};
use context_manager::observability::metrics::{get_memory_usage, Histogram, MetricsCollector};
use context_manager::vector_db::circuit_breaker::CircuitState;

fn component(status: HealthStatus) -> ComponentHealth {
    ComponentHealth { name: "c".to_string(), status, message: None, response_time_ms: None }
}

#[test]
fn test_liveness() {
    let checker = HealthChecker::new();
    assert!(checker.liveness());
    assert!(liveness());
}

#[test]
fn test_health_check() {
    let mut checker = HealthChecker::new();
    let components = vec![
        not_configured("embedding_service"),
        not_configured("vector_database"),
        not_configured("cache"),
        check_circuit_breaker(None),
    ];
    let health = checker.check_health(components);

    // Without configured components, status should be Degraded
    assert_eq!(health.status, HealthStatus::Degraded);
    assert!(!health.components.is_empty());
    assert_eq!(health.components.len(), 4); // embedding, vector_db, cache, circuit_breaker
}

#[test]
fn test_readiness() {
    let mut checker = HealthChecker::new();
    let health = checker.record(vec![not_configured("cache")], 0);
    assert!(readiness(&health));
}

#[test]
fn overall_status_cases() {
    let healthy = HealthStatus::Healthy;
    let degraded = HealthStatus::Degraded;
    let unhealthy = HealthStatus::Unhealthy;
    assert_eq!(overall_status(&Vec::new()), healthy);
    assert_eq!(overall_status(&vec![component(healthy), component(healthy)]), healthy);
    assert_eq!(overall_status(&vec![component(healthy), component(degraded)]), degraded);
    assert_eq!(overall_status(&vec![component(degraded), component(unhealthy)]), unhealthy);
    assert_eq!(overall_status(&vec![component(unhealthy), component(healthy)]), unhealthy);
    let health = system_health(vec![component(unhealthy)], 5, 77);
    assert_eq!(health.uptime_secs, 5);
    assert_eq!(health.timestamp, 77);
    assert!(!readiness(&health));
}

#[test]
fn component_checks() {
    assert_eq!(check_circuit_breaker(Some(CircuitState::Closed)).status, HealthStatus::Healthy);
    assert_eq!(check_circuit_breaker(Some(CircuitState::Open)).status, HealthStatus::Unhealthy);
    assert_eq!(check_circuit_breaker(Some(CircuitState::HalfOpen)).status, HealthStatus::Degraded);
    let missing = check_circuit_breaker(None);
    assert_eq!(missing.status, HealthStatus::Degraded);
    assert_eq!(missing.name, "circuit_breaker");
    assert_eq!(missing.message.as_deref(), Some("Not configured"));
    assert_eq!(check_embedding_service(1024, 3).status, HealthStatus::Healthy);
    assert_eq!(check_embedding_service(0, 3).status, HealthStatus::Unhealthy);
    assert_eq!(check_cache(500_001, 1).status, HealthStatus::Healthy);
    assert_eq!(check_cache(500_000, 1).status, HealthStatus::Degraded);
    assert_eq!(check_vector_db(None, 1).status, HealthStatus::Healthy);
    let missing = ContextError::VectorDb(VectorDbError::CollectionNotFound("x".to_string()));
    assert_eq!(check_vector_db(Some(missing), 1).status, HealthStatus::Healthy);
    let down = ContextError::VectorDb(VectorDbError::ConnectionError("x".to_string()));
    let health = check_vector_db(Some(down), 9);
    assert_eq!(health.status, HealthStatus::Unhealthy);
    assert_eq!(health.response_time_ms, Some(9));
    assert_eq!(health.name, "vector_database");
}

#[test]
fn kept_health_is_answered_while_fresh() {
    let mut checker = HealthChecker::with_cache_ttl(Duration::from_millis(100));
    assert!(checker.cached_at(0).is_none());
    checker.record(vec![component(HealthStatus::Healthy)], 1000);
    let kept = checker.cached_at(1050).unwrap();
    assert_eq!(kept.status, HealthStatus::Healthy);
    assert_eq!(kept.components.len(), 1);
    assert_eq!(kept.uptime_secs, 1);
    assert!(checker.cached_at(1099).is_some());
    assert!(checker.cached_at(1100).is_none());
    assert!(checker.cached_at(999).is_none());
}

#[test]
fn test_metrics_collector() {
    let mut collector = MetricsCollector::new();

    collector.record_request(Duration::from_millis(100));
    collector.record_request(Duration::from_millis(200));
    collector.record_error();
    collector.increment_connections();
    collector.record_cache_hit();
    collector.record_cache_miss();

    let metrics = collector.get_metrics();

    assert_eq!(metrics.total_requests, 2);
    assert_eq!(metrics.total_errors, 1);
    assert_eq!(metrics.active_connections, 1);
    assert_eq!(metrics.avg_response_time_us, 150_000);
    assert_eq!(metrics.cache_hit_rate, 500_000);
}

#[test]
fn metrics_without_observations() {
    let mut collector = MetricsCollector::new();
    let metrics = collector.metrics_at(12);
    assert_eq!(metrics.total_requests, 0);
    assert_eq!(metrics.avg_response_time_us, 0);
    assert_eq!(metrics.cache_hit_rate, 0);
    assert_eq!(metrics.uptime_secs, 12);
    assert_eq!(metrics.memory_usage_bytes, 0);
    assert_eq!(get_memory_usage(), 0);
    collector.increment_connections();
    collector.decrement_connections();
    assert_eq!(collector.metrics_at(0).active_connections, 0);
    collector.record_gc_run(7);
    collector.record_gc_run(5);
    collector.record_gc_error();
    let counters = collector.current_counters();
    assert_eq!(counters.gc_runs, 2);
    assert_eq!(counters.gc_deleted_total, 12);
    assert_eq!(counters.gc_errors, 1);
    assert_eq!(counters.total_requests, 0);
    collector.record_embedding_latency(Duration::from_millis(3));
    collector.record_vector_db_latency(Duration::from_millis(30));
    assert_eq!(collector.embedding_latency().observations(), 1);
    assert_eq!(collector.vector_db_latency().total(), 30);
    assert_eq!(collector.request_latency().observations(), 0);
}

#[test]
fn histogram_counts_at_or_below_each_bound() {
    let mut histogram = Histogram::new();
    histogram.observe(1);
    histogram.observe(7);
    histogram.observe(100);
    histogram.observe(6000);
    let buckets = histogram.buckets();
    let bounds: Vec<u64> = buckets.iter().map(|b| b.0).collect();
    let counts: Vec<u64> = buckets.iter().map(|b| b.1).collect();
    assert_eq!(bounds, vec![1, 5, 10, 25, 50, 100, 250, 500, 1000, 2500, 5000]);
    assert_eq!(counts, vec![1, 1, 2, 2, 2, 3, 3, 3, 3, 3, 3]);
    assert_eq!(histogram.total(), 6108);
    assert_eq!(histogram.observations(), 4);
}

#[test]
fn check_answers_with_the_kept_health_until_it_is_stale() {
    let mut checker = HealthChecker::with_cache_ttl(Duration::from_millis(100));
    let first = checker.check_health_at(vec![component(HealthStatus::Healthy)], 1000);
    assert_eq!(first.status, HealthStatus::Healthy);
    // within the time to live the kept health is the answer, whatever the components are now
    let second = checker.check_health_at(vec![component(HealthStatus::Unhealthy)], 1099);
    assert_eq!(second.status, HealthStatus::Healthy);
    assert_eq!(second.components.len(), 1);
    // after it the components count, and their health is kept
    let third = checker.check_health_at(
        vec![component(HealthStatus::Healthy), component(HealthStatus::Unhealthy)],
        1100,
    );
    assert_eq!(third.status, HealthStatus::Unhealthy);
    assert_eq!(third.components.len(), 2);
    assert_eq!(checker.cached_at(1150).unwrap().status, HealthStatus::Unhealthy);
    assert!(!checker.readiness(&third));
    assert!(checker.readiness(&first));
}

#[test]
fn fresh_check_passes_over_the_kept_health() {
    let mut checker = HealthChecker::new();
    let kept = checker.check_health(vec![component(HealthStatus::Healthy)]);
    assert_eq!(kept.status, HealthStatus::Healthy);
    let again = checker.check_health(vec![component(HealthStatus::Degraded)]);
    assert_eq!(again.status, HealthStatus::Healthy);
    let fresh = checker.check_health_fresh(vec![component(HealthStatus::Degraded)]);
    assert_eq!(fresh.status, HealthStatus::Degraded);
    let after = checker.check_health(vec![component(HealthStatus::Healthy)]);
    assert_eq!(after.status, HealthStatus::Degraded);
}

#[test]
fn new_collector_has_empty_histograms() {
    let collector = MetricsCollector::new();
    for histogram in [
        collector.request_latency(),
        collector.embedding_latency(),
        collector.vector_db_latency(),
    ] {
        assert_eq!(histogram.observations(), 0);
        assert_eq!(histogram.total(), 0);
        let buckets = histogram.buckets();
        assert_eq!(buckets.len(), 11);
        assert!(buckets.iter().all(|(_, count)| *count == 0));
    }
    let counters = collector.current_counters();
    assert_eq!(counters.total_requests, 0);
    assert_eq!(counters.cache_hits, 0);
    assert_eq!(counters.gc_runs, 0);
}
