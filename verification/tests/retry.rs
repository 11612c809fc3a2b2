use event_outbox::messaging::PublishError;
use event_outbox::utils::{
    retry_on_transient, retry_with_backoff, RetryConfig, RetryResult, RetryStep,
};
use std::cell::{Cell, RefCell};
use std::sync::atomic::{AtomicU32, Ordering};
use std::sync::Arc;

#[test]
fn test_retry_succeeds_eventually() {
    let counter = Arc::new(AtomicU32::new(0));
    let counter_clone = counter.clone();

    let config = RetryConfig { max_attempts: 3, initial_delay: 10, max_delay: 100, multiplier: 2 };

    let result = retry_with_backoff(
        config,
        |_attempt| {
            let counter = counter_clone.clone();
            let count = counter.fetch_add(1, Ordering::SeqCst);
            if count < 2 {
                Err("temporary failure")
            } else {
                Ok("success")
            }
        },
        |_delay| {},
    );

    assert!(matches!(result, RetryResult::Success("success")));
    assert_eq!(counter.load(Ordering::SeqCst), 3);
}

#[test]
fn test_retry_fails_after_max_attempts() {
    let config = RetryConfig { max_attempts: 2, initial_delay: 10, max_delay: 100, multiplier: 2 };

    let result =
        retry_with_backoff(config, |_attempt| Err::<(), _>("persistent failure"), |_delay| {});

    assert!(matches!(result, RetryResult::Failed(_)));
}

#[test]
fn the_three_presets() {
    assert_eq!(
        RetryConfig::default(),
        RetryConfig { max_attempts: 3, initial_delay: 100, max_delay: 10_000, multiplier: 2 }
    );
    assert_eq!(
        RetryConfig::aggressive(),
        RetryConfig { max_attempts: 5, initial_delay: 50, max_delay: 30_000, multiplier: 2 }
    );
    assert_eq!(
        RetryConfig::conservative(),
        RetryConfig { max_attempts: 2, initial_delay: 200, max_delay: 5_000, multiplier: 2 }
    );
}

#[test]
fn the_attempts_are_numbered_from_one_and_the_pauses_double() {
    let attempts = RefCell::new(Vec::new());
    let pauses = RefCell::new(Vec::new());
    let result = retry_with_backoff(
        RetryConfig::aggressive(),
        |attempt| {
            attempts.borrow_mut().push(attempt);
            Err::<(), _>(attempt)
        },
        |delay| pauses.borrow_mut().push(delay),
    );
    assert!(matches!(result, RetryResult::Failed(5)));
    assert_eq!(*attempts.borrow(), vec![1, 2, 3, 4, 5]);
    assert_eq!(*pauses.borrow(), vec![50, 100, 200, 400]);
}

#[test]
fn no_pause_after_the_first_is_longer_than_the_longest() {
    let pauses = RefCell::new(Vec::new());
    let config = RetryConfig { max_attempts: 6, initial_delay: 300, max_delay: 1_000, multiplier: 3 };
    let _ = retry_with_backoff(config, |_| Err::<(), _>(()), |delay| pauses.borrow_mut().push(delay));
    assert_eq!(*pauses.borrow(), vec![300, 900, 1_000, 1_000, 1_000]);

    let pauses = RefCell::new(Vec::new());
    let config =
        RetryConfig { max_attempts: 3, initial_delay: u64::MAX, max_delay: 7, multiplier: 2 };
    let _ = retry_with_backoff(config, |_| Err::<(), _>(()), |delay| pauses.borrow_mut().push(delay));
    assert_eq!(*pauses.borrow(), vec![u64::MAX, 7]);
}

#[test]
fn the_operation_is_tried_once_even_with_no_attempt_allowed() {
    let runs = Cell::new(0);
    let config = RetryConfig { max_attempts: 0, initial_delay: 1, max_delay: 1, multiplier: 2 };
    let result = retry_with_backoff(
        config,
        |_| {
            runs.set(runs.get() + 1);
            Err::<(), _>("no")
        },
        |_| panic!("no pause is due"),
    );
    assert!(matches!(result, RetryResult::Failed("no")));
    assert_eq!(runs.get(), 1);
}

#[test]
fn what_follows_a_failed_attempt() {
    let config = RetryConfig::default();
    assert_eq!(
        config.after_failure(1, 100),
        RetryStep::RetryAfter { pause: 100, next_delay: 200 }
    );
    assert_eq!(
        config.after_failure(2, 8_000),
        RetryStep::RetryAfter { pause: 8_000, next_delay: 10_000 }
    );
    assert_eq!(config.after_failure(3, 400), RetryStep::GiveUp);
    assert_eq!(config.after_failure(4, 400), RetryStep::GiveUp);
}

#[test]
fn an_error_that_will_not_go_away_ends_the_run() {
    let runs = Cell::new(0);
    let result = retry_on_transient(
        RetryConfig::aggressive(),
        |attempt| {
            runs.set(runs.get() + 1);
            if attempt < 3 {
                Err::<(), _>(PublishError::Transient("timeout".to_string()))
            } else {
                Err(PublishError::Unavailable)
            }
        },
        |_| {},
    );
    assert!(matches!(result, RetryResult::PermanentFailure(PublishError::Unavailable)));
    assert_eq!(runs.get(), 3);
}

#[test]
fn an_error_that_may_go_away_is_retried_to_the_last_attempt() {
    let runs = Cell::new(0);
    let result = retry_on_transient(
        RetryConfig::conservative(),
        |_| {
            runs.set(runs.get() + 1);
            Err::<(), _>(PublishError::Transient("timeout".to_string()))
        },
        |_| {},
    );
    assert!(matches!(result, RetryResult::Failed(PublishError::Transient(reason)) if reason == "timeout"));
    assert_eq!(runs.get(), 2);

    let result = retry_on_transient(
        RetryConfig::conservative(),
        |attempt| if attempt == 2 { Ok(attempt) } else { Err(PublishError::Transient("t".to_string())) },
        |_| {},
    );
    assert!(matches!(result, RetryResult::Success(2)));
}
