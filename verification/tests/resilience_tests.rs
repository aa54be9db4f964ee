use zeroclaw_composio::resilience::{
    is_retryable_error, retry_exhausted_message, retry_step, AttemptOutcome, CircuitBreaker, CircuitBreakerConfig, CircuitState,
    RetryStep,
};

fn breaker(t: i64) -> CircuitBreaker {
    CircuitBreaker::new_at(CircuitBreakerConfig { failure_threshold: 3, success_threshold: 2, timeout_duration_ms: 1_000 }, t)
}

#[test]
fn circuit_opens_after_threshold_failures() {
    let mut cb = breaker(0);
    assert_eq!(cb.state(), CircuitState::Closed);
    cb.record_failure_at(1);
    cb.record_failure_at(2);
    assert_eq!(cb.state(), CircuitState::Closed);
    cb.record_failure_at(3);
    assert_eq!(cb.state(), CircuitState::Open);
    let err = cb.can_proceed_at(10).unwrap_err();
    assert_eq!(err.message(), format!("Circuit breaker is open. Service unavailable. Retry after {} seconds.", err.retry_after_secs));
}

#[test]
fn open_circuit_half_opens_after_timeout_and_closes_on_successes() {
    let mut cb = breaker(0);
    for t in 1..=3 {
        cb.record_failure_at(t);
    }
    assert!(cb.can_proceed_at(1_003).is_ok());
    assert_eq!(cb.state(), CircuitState::HalfOpen);
    cb.record_success_at(1_004);
    assert_eq!(cb.state(), CircuitState::HalfOpen);
    cb.record_success_at(1_005);
    assert_eq!(cb.state(), CircuitState::Closed);
}

#[test]
fn failure_in_half_open_reopens() {
    let mut cb = breaker(0);
    for t in 1..=3 {
        cb.record_failure_at(t);
    }
    assert!(cb.can_proceed_at(2_000).is_ok());
    cb.record_failure_at(2_001);
    assert_eq!(cb.state(), CircuitState::Open);
}

#[test]
fn success_resets_failures_when_closed() {
    let mut cb = breaker(0);
    cb.record_failure_at(1);
    cb.record_failure_at(2);
    cb.record_success_at(3);
    assert_eq!(cb.stats().failure_count, 0);
    cb.reset_at(4);
    assert_eq!(cb.state(), CircuitState::Closed);
}

#[test]
fn service_configs_have_documented_thresholds() {
    assert_eq!(CircuitBreakerConfig::mcp().failure_threshold, 5);
    assert_eq!(CircuitBreakerConfig::composio_api().failure_threshold, 10);
    assert_eq!(CircuitBreakerConfig::auth().failure_threshold, 3);
}

#[test]
fn transient_errors_are_retryable() {
    assert!(is_retryable_error("Connection timeout"));
    assert!(is_retryable_error("HTTP 503 Service Unavailable"));
    assert!(is_retryable_error("Rate limit exceeded"));
    assert!(!is_retryable_error("Invalid parameters"));
}

#[test]
fn retry_loop_backs_off_between_attempts_only() {
    let failed = AttemptOutcome::Failed { retryable: true };
    assert_eq!(retry_step(0, 3, failed), RetryStep::BackoffAndRetry);
    assert_eq!(retry_step(2, 3, failed), RetryStep::Exhausted);
    assert_eq!(retry_step(0, 3, AttemptOutcome::Failed { retryable: false }), RetryStep::ReturnError);
    assert_eq!(retry_step(1, 3, AttemptOutcome::Succeeded), RetryStep::ReturnSuccess);
    assert_eq!(retry_exhausted_message(3, Some("boom")), "Operation failed after 3 attempts. Last error: boom");
    assert_eq!(retry_exhausted_message(2, None), "Operation failed after 2 attempts. Last error: unknown error");
}

fn config(failures: u32, successes: u32, timeout_ms: i64) -> CircuitBreakerConfig {
    CircuitBreakerConfig { failure_threshold: failures, success_threshold: successes, timeout_duration_ms: timeout_ms }
}

#[test]
fn test_circuit_breaker_initial_state() {
    let cb = CircuitBreaker::for_mcp();
    assert_eq!(cb.state(), CircuitState::Closed);
}

#[test]
fn test_circuit_breaker_closed_to_open() {
    let mut cb = CircuitBreaker::for_mcp();
    for _ in 0..4 {
        cb.record_failure();
        assert_eq!(cb.state(), CircuitState::Closed);
    }
    cb.record_failure();
    assert_eq!(cb.state(), CircuitState::Open);
}

#[test]
fn test_circuit_breaker_open_rejects_requests() {
    let mut cb = CircuitBreaker::for_mcp();
    for _ in 0..5 {
        cb.record_failure();
    }
    assert!(cb.can_proceed().is_err());
}

#[test]
fn test_circuit_breaker_open_to_halfopen() {
    let mut cb = CircuitBreaker::new_at(config(3, 2, 100), 0);
    for t in 0..3 {
        cb.record_failure_at(t);
    }
    assert_eq!(cb.state(), CircuitState::Open);
    assert!(cb.can_proceed_at(2 + 150).is_ok());
    assert_eq!(cb.state(), CircuitState::HalfOpen);
}

#[test]
fn test_circuit_breaker_halfopen_to_closed() {
    let mut cb = CircuitBreaker::new_at(config(3, 3, 100), 0);
    for t in 0..3 {
        cb.record_failure_at(t);
    }
    let _ = cb.can_proceed_at(152);
    for t in 0..2 {
        cb.record_success_at(153 + t);
        assert_eq!(cb.state(), CircuitState::HalfOpen);
    }
    cb.record_success_at(160);
    assert_eq!(cb.state(), CircuitState::Closed);
}

#[test]
fn test_circuit_breaker_halfopen_to_open_on_failure() {
    let mut cb = CircuitBreaker::new_at(config(3, 3, 100), 0);
    for t in 0..3 {
        cb.record_failure_at(t);
    }
    let _ = cb.can_proceed_at(152);
    assert_eq!(cb.state(), CircuitState::HalfOpen);
    cb.record_failure_at(153);
    assert_eq!(cb.state(), CircuitState::Open);
}

#[test]
fn test_circuit_breaker_success_resets_failure_count() {
    let mut cb = CircuitBreaker::for_mcp();
    for _ in 0..3 {
        cb.record_failure();
    }
    cb.record_success();
    assert_eq!(cb.state(), CircuitState::Closed);
    for _ in 0..4 {
        cb.record_failure();
        assert_eq!(cb.state(), CircuitState::Closed);
    }
    cb.record_failure();
    assert_eq!(cb.state(), CircuitState::Open);
}

#[test]
fn test_circuit_breaker_execute_success() {
    let mut cb = CircuitBreaker::for_mcp();
    assert!(cb.can_proceed().is_ok());
    let result: Result<i32, String> = Ok(42);
    cb.record_success();
    assert_eq!(result.unwrap(), 42);
    assert_eq!(cb.state(), CircuitState::Closed);
}

#[test]
fn test_circuit_breaker_execute_failure() {
    let mut cb = CircuitBreaker::for_mcp();
    for _ in 0..5 {
        if cb.can_proceed().is_ok() {
            cb.record_failure();
        }
    }
    assert_eq!(cb.state(), CircuitState::Open);
}

#[test]
fn test_circuit_breaker_reset() {
    let mut cb = CircuitBreaker::for_mcp();
    for _ in 0..5 {
        cb.record_failure();
    }
    assert_eq!(cb.state(), CircuitState::Open);
    cb.reset();
    assert_eq!(cb.state(), CircuitState::Closed);
    let stats = cb.stats();
    assert_eq!(stats.failure_count, 0);
    assert_eq!(stats.success_count, 0);
}

#[test]
fn test_circuit_breaker_different_thresholds() {
    let mut mcp_cb = CircuitBreaker::for_mcp();
    for _ in 0..5 {
        mcp_cb.record_failure();
    }
    assert_eq!(mcp_cb.state(), CircuitState::Open);
    let mut api_cb = CircuitBreaker::for_composio_api();
    for _ in 0..9 {
        api_cb.record_failure();
        assert_eq!(api_cb.state(), CircuitState::Closed);
    }
    api_cb.record_failure();
    assert_eq!(api_cb.state(), CircuitState::Open);
    let mut auth_cb = CircuitBreaker::for_auth();
    for _ in 0..3 {
        auth_cb.record_failure();
    }
    assert_eq!(auth_cb.state(), CircuitState::Open);
}

#[test]
fn test_circuit_breaker_stats() {
    let mut cb = CircuitBreaker::for_mcp();
    cb.record_failure();
    cb.record_failure();
    let stats = cb.stats();
    assert_eq!(stats.current_state, CircuitState::Closed);
    assert_eq!(stats.failure_count, 2);
    assert_eq!(stats.success_count, 0);
    assert!(stats.last_failure_time.is_some());
}

#[test]
fn test_is_retryable_error_connection() {
    assert!(is_retryable_error("Connection refused"));
    assert!(is_retryable_error("Connection timeout"));
    assert!(is_retryable_error("Request timed out"));
}

#[test]
fn test_is_retryable_error_5xx() {
    assert!(is_retryable_error("HTTP 500 Internal Server Error"));
    assert!(is_retryable_error("HTTP 502 Bad Gateway"));
    assert!(is_retryable_error("HTTP 503 Service Unavailable"));
    assert!(is_retryable_error("HTTP 504 Gateway Timeout"));
}

#[test]
fn test_is_retryable_error_rate_limit() {
    assert!(is_retryable_error("HTTP 429 Too Many Requests"));
    assert!(is_retryable_error("Rate limit exceeded"));
}

#[test]
fn test_is_not_retryable_error_4xx() {
    assert!(!is_retryable_error("HTTP 400 Bad Request"));
    assert!(!is_retryable_error("HTTP 401 Unauthorized"));
    assert!(!is_retryable_error("HTTP 403 Forbidden"));
    assert!(!is_retryable_error("HTTP 404 Not Found"));
}

#[test]
fn test_execute_with_filter_skips_non_retryable() {
    let outcome = AttemptOutcome::Failed { retryable: is_retryable_error("HTTP 400 Bad Request") };
    assert_eq!(retry_step(0, 3, outcome), RetryStep::ReturnError);
}

#[test]
fn test_execute_with_filter_retries_retryable() {
    let outcome = AttemptOutcome::Failed { retryable: is_retryable_error("Connection refused") };
    assert_eq!(retry_step(0, 3, outcome), RetryStep::BackoffAndRetry);
    assert_eq!(retry_step(1, 3, outcome), RetryStep::BackoffAndRetry);
    assert_eq!(retry_step(2, 3, AttemptOutcome::Succeeded), RetryStep::ReturnSuccess);
}

/// Runs attempts as the retry loop does, without sleeping; the number of
/// attempts made and the outcome.
fn run_retries(max_attempts: u32, fails_before_success: u32) -> (u32, Result<i32, String>) {
    let mut calls = 0u32;
    let mut last_error: Option<String> = None;
    let mut attempt = 0u32;
    while attempt < max_attempts {
        calls += 1;
        let outcome = if calls > fails_before_success { AttemptOutcome::Succeeded } else { AttemptOutcome::Failed { retryable: true } };
        match retry_step(attempt, max_attempts, outcome) {
            RetryStep::ReturnSuccess => return (calls, Ok(42)),
            RetryStep::ReturnError => return (calls, Err("failure".to_string())),
            RetryStep::BackoffAndRetry | RetryStep::Exhausted => last_error = Some("persistent failure".to_string()),
        }
        attempt += 1;
    }
    (calls, Err(retry_exhausted_message(max_attempts, last_error.as_deref())))
}

#[test]
fn test_retry_success_on_first_attempt() {
    let (calls, result) = run_retries(3, 0);
    assert_eq!(result.unwrap(), 42);
    assert_eq!(calls, 1);
}

#[test]
fn test_retry_success_after_failures() {
    let (calls, result) = run_retries(3, 2);
    assert_eq!(result.unwrap(), 42);
    assert_eq!(calls, 3);
}

#[test]
fn test_retry_exhausts_attempts() {
    let (calls, result) = run_retries(3, 100);
    assert_eq!(calls, 3);
    assert!(result.unwrap_err().contains("after 3 attempts"));
}

#[test]
fn lowercase_messages_are_classified() {
    assert!(zeroclaw_composio::resilience::retryable_in("connection reset"));
    assert!(!zeroclaw_composio::resilience::retryable_in("http 404 not found"));
}
