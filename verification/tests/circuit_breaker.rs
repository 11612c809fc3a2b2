use event_outbox::utils::{
    CircuitBreaker, CircuitBreakerConfig, CircuitBreakerError, CircuitState,
};

fn failing(cb: &mut CircuitBreaker, now: u64) -> Result<(), CircuitBreakerError<&'static str>> {
    cb.call(now, || Err::<(), _>("error"))
}

fn succeeding(cb: &mut CircuitBreaker, now: u64) -> Result<(), CircuitBreakerError<&'static str>> {
    cb.call(now, || Ok::<_, &str>(()))
}

#[test]
fn test_circuit_breaker_opens_after_failures() {
    let config = CircuitBreakerConfig { failure_threshold: 3, timeout: 1_000, success_threshold: 2 };
    let mut cb = CircuitBreaker::new(config);

    // First 3 failures should open the circuit
    for _ in 0..3 {
        let result = failing(&mut cb, 0);
        assert!(result.is_err());
    }

    assert_eq!(cb.get_state(), CircuitState::Open);

    // Next call should fail immediately
    let result = succeeding(&mut cb, 0);
    assert!(matches!(result, Err(CircuitBreakerError::CircuitOpen)));
}

#[test]
fn test_circuit_breaker_half_open_after_timeout() {
    let config = CircuitBreakerConfig { failure_threshold: 2, timeout: 100, success_threshold: 1 };
    let mut cb = CircuitBreaker::new(config);

    // Open the circuit
    for _ in 0..2 {
        let _ = failing(&mut cb, 0);
    }

    assert_eq!(cb.get_state(), CircuitState::Open);

    // Wait for timeout: the clock reads 150 ms.
    // Should transition to half-open and allow the call
    let result = succeeding(&mut cb, 150);
    assert!(result.is_ok());

    // After success threshold, should be closed
    assert_eq!(cb.get_state(), CircuitState::Closed);
}

#[test]
fn the_default_settings() {
    let config = CircuitBreakerConfig::default();
    assert_eq!(config.failure_threshold, 5);
    assert_eq!(config.timeout, 60_000);
    assert_eq!(config.success_threshold, 2);
}

#[test]
fn an_open_circuit_does_not_run_the_operation() {
    let config = CircuitBreakerConfig { failure_threshold: 1, timeout: 1_000, success_threshold: 1 };
    let mut cb = CircuitBreaker::new(config);
    let _ = failing(&mut cb, 10);
    assert_eq!(cb.get_state(), CircuitState::Open);

    let runs = std::cell::Cell::new(0);
    for now in [10, 500, 1_009] {
        let result = cb.call(now, || {
            runs.set(runs.get() + 1);
            Ok::<_, &str>(())
        });
        assert!(matches!(result, Err(CircuitBreakerError::CircuitOpen)));
    }
    assert_eq!(runs.get(), 0);
    assert_eq!(cb.get_failure_count(), 1);

    // The timeout is counted from the last failure.
    let result = cb.call(1_010, || {
        runs.set(runs.get() + 1);
        Ok::<_, &str>(())
    });
    assert!(result.is_ok());
    assert_eq!(runs.get(), 1);
    assert_eq!(cb.get_state(), CircuitState::Closed);
    assert_eq!(cb.get_failure_count(), 0);
}

#[test]
fn a_success_while_closed_forgets_the_failures() {
    let config = CircuitBreakerConfig { failure_threshold: 3, timeout: 1_000, success_threshold: 2 };
    let mut cb = CircuitBreaker::new(config);
    let _ = failing(&mut cb, 0);
    let _ = failing(&mut cb, 0);
    assert_eq!(cb.get_failure_count(), 2);
    assert!(succeeding(&mut cb, 0).is_ok());
    assert_eq!(cb.get_failure_count(), 0);
    let _ = failing(&mut cb, 0);
    let _ = failing(&mut cb, 0);
    assert_eq!(cb.get_state(), CircuitState::Closed);
    let result = failing(&mut cb, 0);
    assert!(matches!(result, Err(CircuitBreakerError::OperationFailed("error"))));
    assert_eq!(cb.get_state(), CircuitState::Open);
}

#[test]
fn a_probe_that_fails_opens_the_circuit_again() {
    let config = CircuitBreakerConfig { failure_threshold: 2, timeout: 100, success_threshold: 2 };
    let mut cb = CircuitBreaker::new(config);
    let _ = failing(&mut cb, 0);
    let _ = failing(&mut cb, 0);

    assert!(succeeding(&mut cb, 100).is_ok());
    assert_eq!(cb.get_state(), CircuitState::HalfOpen);
    let result = failing(&mut cb, 120);
    assert!(matches!(result, Err(CircuitBreakerError::OperationFailed(_))));
    assert_eq!(cb.get_state(), CircuitState::Open);
    assert_eq!(cb.get_failure_count(), 3);
    assert!(matches!(succeeding(&mut cb, 219), Err(CircuitBreakerError::CircuitOpen)));

    // Two successes in a row close it.
    assert!(succeeding(&mut cb, 220).is_ok());
    assert_eq!(cb.get_state(), CircuitState::HalfOpen);
    assert!(succeeding(&mut cb, 221).is_ok());
    assert_eq!(cb.get_state(), CircuitState::Closed);
    assert_eq!(cb.get_failure_count(), 0);
}

#[test]
fn the_steps_can_be_taken_one_by_one() {
    let config = CircuitBreakerConfig { failure_threshold: 1, timeout: 50, success_threshold: 1 };
    let mut cb = CircuitBreaker::new(config);
    assert!(cb.allow(0));
    assert!(cb.can_record_failure());
    cb.record_failure(5);
    assert_eq!(cb.get_state(), CircuitState::Open);
    assert!(!cb.allow(54));
    // A clock that reads less than before counts as no time passed.
    assert!(!cb.allow(1));
    assert!(cb.allow(55));
    assert_eq!(cb.get_state(), CircuitState::HalfOpen);
    cb.record_success();
    assert_eq!(cb.get_state(), CircuitState::Closed);
}

#[test]
fn reset_closes_the_circuit() {
    let config = CircuitBreakerConfig { failure_threshold: 1, timeout: 1_000, success_threshold: 1 };
    let mut cb = CircuitBreaker::new(config);
    let _ = failing(&mut cb, 0);
    assert_eq!(cb.get_state(), CircuitState::Open);
    cb.reset();
    assert_eq!(cb.get_state(), CircuitState::Closed);
    assert_eq!(cb.get_failure_count(), 0);
    assert!(succeeding(&mut cb, 0).is_ok());
}

#[test]
fn the_messages_of_the_breaker_s_errors() {
    let open: CircuitBreakerError<String> = CircuitBreakerError::CircuitOpen;
    assert_eq!(open.to_string(|e: &String| e.clone()), "Circuit breaker is open");
    let failed = CircuitBreakerError::OperationFailed("timeout".to_string());
    assert_eq!(failed.to_string(|e: &String| e.clone()), "Operation failed: timeout");
}
