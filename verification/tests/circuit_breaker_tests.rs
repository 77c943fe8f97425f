use std::time::Duration;

use context_manager::vector_db::circuit_breaker::{
    CircuitBreaker, CircuitBreakerConfig, CircuitState,
};

fn config(failure_threshold: usize, success_threshold: usize, timeout: Duration) -> CircuitBreakerConfig {
    CircuitBreakerConfig {
        failure_threshold,
        success_threshold,
        timeout,
        window_size: Duration::from_secs(60),
    }
}

#[test]
fn test_circuit_breaker_closed() {
    let mut cb = CircuitBreaker::new(config(3, 2, Duration::from_secs(1)));

    assert_eq!(cb.state(), CircuitState::Closed);
    assert!(cb.allow_request());
}

#[test]
fn test_circuit_breaker_opens() {
    let mut cb = CircuitBreaker::new(config(3, 2, Duration::from_secs(1)));

    // Record failures
    cb.record_failure();
    cb.record_failure();
    cb.record_failure();

    assert_eq!(cb.state(), CircuitState::Open);
    assert!(!cb.allow_request());
}

#[test]
fn test_circuit_breaker_half_open() {
    let mut cb = CircuitBreaker::new(config(2, 2, Duration::from_millis(100)));

    // Open circuit
    let opened = cb.clock();
    cb.record_failure_at(opened);
    cb.record_failure_at(opened);
    assert_eq!(cb.state(), CircuitState::Open);

    // After the timeout the breaker should transition to half-open
    assert!(cb.allow_request_at(opened + 150));
    assert_eq!(cb.state(), CircuitState::HalfOpen);
}

#[test]
fn test_circuit_breaker_recovery() {
    let mut cb = CircuitBreaker::new(config(2, 2, Duration::from_millis(100)));

    // Open circuit
    let opened = cb.clock();
    cb.record_failure_at(opened);
    cb.record_failure_at(opened);

    // Transition to half-open after the timeout
    cb.allow_request_at(opened + 150);

    // Record successes
    cb.record_success();
    cb.record_success();

    // Should be closed now
    assert_eq!(cb.state(), CircuitState::Closed);
}

#[test]
fn open_breaker_refuses_until_the_timeout_has_passed() {
    let mut cb = CircuitBreaker::new(config(1, 1, Duration::from_millis(100)));
    cb.record_failure_at(1_000);
    assert_eq!(cb.state(), CircuitState::Open);
    assert!(!cb.allow_request_at(1_000));
    assert!(!cb.allow_request_at(1_099));
    assert_eq!(cb.state(), CircuitState::Open);
    assert!(cb.allow_request_at(1_100));
    assert_eq!(cb.state(), CircuitState::HalfOpen);
    // a clock that runs backwards never lets a call through
    let mut other = CircuitBreaker::new(config(1, 1, Duration::from_millis(100)));
    other.record_failure_at(1_000);
    assert!(!other.allow_request_at(500));
}

#[test]
fn failure_in_half_open_reopens() {
    let mut cb = CircuitBreaker::new(config(1, 2, Duration::from_millis(100)));
    cb.record_failure_at(0);
    assert!(cb.allow_request_at(100));
    cb.record_success();
    assert_eq!(cb.state(), CircuitState::HalfOpen);
    cb.record_failure_at(200);
    assert_eq!(cb.state(), CircuitState::Open);
    assert!(!cb.allow_request_at(250));
    assert!(cb.allow_request_at(300));
    // the run of successes starts anew
    cb.record_success();
    assert_eq!(cb.state(), CircuitState::HalfOpen);
    cb.record_success();
    assert_eq!(cb.state(), CircuitState::Closed);
}

#[test]
fn success_resets_the_run_of_failures() {
    let mut cb = CircuitBreaker::new(config(3, 2, Duration::from_secs(1)));
    cb.record_failure_at(0);
    cb.record_failure_at(0);
    cb.record_success();
    cb.record_failure_at(0);
    cb.record_failure_at(0);
    assert_eq!(cb.state(), CircuitState::Closed);
    cb.record_failure_at(0);
    assert_eq!(cb.state(), CircuitState::Open);
}

#[test]
fn stats_and_gauge() {
    let mut cb = CircuitBreaker::new(config(2, 1, Duration::from_millis(10)));
    assert_eq!(cb.state_gauge(), 0);
    cb.allow_request_at(0);
    cb.record_failure_at(0);
    let stats = cb.stats();
    assert_eq!(stats.total_calls, 1);
    assert_eq!(stats.total_failures, 1);
    assert_eq!(stats.current_failures, 1);
    assert_eq!(stats.state, CircuitState::Closed);
    cb.record_failure_at(0);
    assert_eq!(cb.state_gauge(), 2);
    cb.allow_request_at(10);
    assert_eq!(cb.state_gauge(), 1);
    assert_eq!(cb.stats().total_calls, 2);
    cb.reset();
    assert_eq!(cb.state(), CircuitState::Closed);
    assert_eq!(cb.stats().current_failures, 0);
    assert_eq!(cb.stats().total_failures, 2);
}

#[test]
fn default_configuration() {
    let config = CircuitBreakerConfig::default();
    assert_eq!(config.failure_threshold, 5);
    assert_eq!(config.success_threshold, 2);
    assert_eq!(config.timeout, Duration::from_secs(60));
    assert_eq!(config.window_size, Duration::from_secs(60));
}
