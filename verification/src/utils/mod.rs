//! The two guards around a call that can fail: the circuit breaker and the
//! retry policy.

pub mod circuit_breaker;
pub mod retry;

pub use circuit_breaker::{
    CircuitBreaker, CircuitBreakerConfig, CircuitBreakerError, CircuitBreakerState, CircuitState,
};
pub use retry::{
    retry_on_transient, retry_with_backoff, IsTransient, RetryConfig, RetryResult, RetryStep,
};
