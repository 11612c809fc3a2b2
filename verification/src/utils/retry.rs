//! Retrying a call that can fail, with pauses that grow from one attempt to
//! the next.
//!
//! Pauses are in milliseconds. The functions here do not sleep: they are
//! handed the action that does.

use vstd::prelude::*;

verus! {

#[derive(Debug, Clone, Copy, PartialEq, Eq, Structural)]
pub struct RetryConfig {
    /// How many times the operation is tried at most; it is always tried once.
    pub max_attempts: u32,
    /// The pause after the first failure.
    pub initial_delay: u64,
    /// The longest pause after any later failure.
    pub max_delay: u64,
    /// By how much a pause is longer than the one before it.
    pub multiplier: u32,
}

impl Default for RetryConfig {
    fn default() -> (r: Self)
        ensures
            r == (RetryConfig {
                max_attempts: 3,
                initial_delay: 100,
                max_delay: 10_000,
                multiplier: 2,
            }),
    {
        RetryConfig { max_attempts: 3, initial_delay: 100, max_delay: 10_000, multiplier: 2 }
    }
}

impl RetryConfig {
    /// More attempts, for operations that must not be lost.
    pub fn aggressive() -> (r: Self)
        ensures
            r == (RetryConfig {
                max_attempts: 5,
                initial_delay: 50,
                max_delay: 30_000,
                multiplier: 2,
            }),
    {
        RetryConfig { max_attempts: 5, initial_delay: 50, max_delay: 30_000, multiplier: 2 }
    }

    /// Fewer attempts, for operations that should fail fast.
    pub fn conservative() -> (r: Self)
        ensures
            r == (RetryConfig {
                max_attempts: 2,
                initial_delay: 200,
                max_delay: 5_000,
                multiplier: 2,
            }),
    {
        RetryConfig { max_attempts: 2, initial_delay: 200, max_delay: 5_000, multiplier: 2 }
    }

    /// The number of the last attempt: `max_attempts`, and 1 where that is 0.
    pub open spec fn last_attempt(self) -> u32 {
        if self.max_attempts == 0 {
            1
        } else {
            self.max_attempts
        }
    }

    /// The pause that follows a pause of `delay`: `multiplier` times as
    /// long, but no longer than `max_delay`.
    pub open spec fn next_delay(self, delay: u64) -> u64 {
        if delay * self.multiplier <= self.max_delay {
            (delay * self.multiplier) as u64
        } else {
            self.max_delay
        }
    }

    /// The pause after the failure of attempt `attempt`, counted from 1:
    /// `initial_delay` after the first, and `next_delay` of the one before
    /// after every other.
    pub open spec fn delay_after(self, attempt: nat) -> u64
        decreases attempt,
    {
        if attempt <= 1 {
            self.initial_delay
        } else {
            self.next_delay(self.delay_after((attempt - 1) as nat))
        }
    }

    /// What to do once attempt `attempt` has failed, where `delay` is the
    /// pause that is due now: give up after the last attempt, and otherwise
    /// pause for `delay` and come back with the pause that follows it.
    pub fn after_failure(&self, attempt: u32, delay: u64) -> (step: RetryStep)
        ensures
            step == if attempt >= self.max_attempts {
                RetryStep::GiveUp
            } else {
                RetryStep::RetryAfter { pause: delay, next_delay: self.next_delay(delay) }
            },
    {
        if attempt >= self.max_attempts {
            return RetryStep::GiveUp;
        }
        let next_delay = match delay.checked_mul(self.multiplier as u64) {
            Some(longer) => if longer <= self.max_delay {
                longer
            } else {
                self.max_delay
            },
            None => self.max_delay,
        };
        RetryStep::RetryAfter { pause: delay, next_delay }
    }
}

/// What follows a failed attempt.
#[derive(Debug, Clone, Copy, PartialEq, Eq, Structural)]
pub enum RetryStep {
    /// No attempt is left.
    GiveUp,
    /// Pause, then try again; after the next failure `next_delay` is due.
    RetryAfter { pause: u64, next_delay: u64 },
}

/// How a retried operation ended.
#[derive(Debug)]
pub enum RetryResult<T, E> {
    /// An attempt succeeded.
    Success(T),
    /// The last attempt failed; this is its error.
    Failed(E),
    /// An attempt failed for good; no other was made.
    PermanentFailure(E),
}

/// Tells an error that may go away from one that will not.
pub trait IsTransient {
    spec fn spec_is_transient(&self) -> bool;

    fn is_transient(&self) -> (r: bool)
        ensures
            r == self.spec_is_transient(),
    ;
}

/// Whether `operation`, run as attempt `attempt`, can have returned `outcome`.
pub open spec fn attempt_returned<T, E, F: Fn(u32) -> Result<T, E>>(
    operation: F,
    attempt: u32,
    outcome: Result<T, E>,
) -> bool {
    call_ensures(operation, (attempt,), outcome)
}

/// Whether `pause` has been through every pause that is due before attempt
/// `attempt`: for each attempt `k` before it, the pause of
/// `config.delay_after(k)`.
pub open spec fn pauses_made<P: Fn(u64)>(pause: P, config: RetryConfig, attempt: u32) -> bool {
    forall|k: nat|
        1 <= k < attempt ==> call_ensures(pause, (#[trigger] config.delay_after(k),), ())
}

/// Whether `operation` can have returned `outcome` at one of the attempts
/// from 1 to the last, after every pause that is due before that attempt.
pub open spec fn some_attempt_ended<T, E, F: Fn(u32) -> Result<T, E>, P: Fn(u64)>(
    operation: F,
    pause: P,
    config: RetryConfig,
    outcome: Result<T, E>,
) -> bool {
    exists|attempt: u32|
        1 <= attempt && attempt <= config.last_attempt() && #[trigger] attempt_returned(
            operation,
            attempt,
            outcome,
        ) && pauses_made(pause, config, attempt)
}

/// Whether `operation` returns `outcome(k)` whenever it is run as attempt
/// `k`: what it returns depends on the attempt's number alone.
pub open spec fn returns_by_attempt<T, E, F: Fn(u32) -> Result<T, E>>(
    operation: F,
    outcome: spec_fn(u32) -> Result<T, E>,
) -> bool {
    forall|attempt: u32, returned: Result<T, E>| #[trigger]
        call_ensures(operation, (attempt,), returned) ==> returned == outcome(attempt)
}

/// How a run ends that is at attempt `attempt` of at most `last`, where
/// attempt `k` returns `outcome(k)`: with the first success, or with the
/// failure of attempt `last`.
pub open spec fn run_from<T, E>(
    last: u32,
    outcome: spec_fn(u32) -> Result<T, E>,
    attempt: u32,
) -> RetryResult<T, E>
    decreases last - attempt,
{
    match outcome(attempt) {
        Ok(value) => RetryResult::Success(value),
        Err(error) => if attempt >= last {
            RetryResult::Failed(error)
        } else {
            run_from(last, outcome, (attempt + 1) as u32)
        },
    }
}

/// As [`run_from`], where a failure that is not transient ends the run at
/// once.
pub open spec fn run_while_transient_from<T, E: IsTransient>(
    last: u32,
    outcome: spec_fn(u32) -> Result<T, E>,
    attempt: u32,
) -> RetryResult<T, E>
    decreases last - attempt,
{
    match outcome(attempt) {
        Ok(value) => RetryResult::Success(value),
        Err(error) => if !error.spec_is_transient() {
            RetryResult::PermanentFailure(error)
        } else if attempt >= last {
            RetryResult::Failed(error)
        } else {
            run_while_transient_from(last, outcome, (attempt + 1) as u32)
        },
    }
}

/// Runs `operation` with the attempt's number, from 1, until it succeeds or
/// the last attempt has failed, and calls `pause` between two attempts with
/// the time to wait.
///
/// The operation is run with no number but those from 1 to the last
/// attempt's, and the pause after the failure of attempt `k` is
/// `config.delay_after(k)`: `pause` is called with no other time, so it need
/// accept no other.
///
/// The result is `Success` with what an attempt no later than the last
/// returned, or `Failed` with the error of the last attempt; before the
/// attempt that ended the run, the pause due after each earlier attempt was
/// made. Where what the operation returns depends on the attempt's number
/// alone, the result is that of the first attempt that succeeds, and the
/// failure of the last attempt where none does.
pub fn retry_with_backoff<T, E, F: Fn(u32) -> Result<T, E>, P: Fn(u64)>(
    config: RetryConfig,
    operation: F,
    pause: P,
) -> (r: RetryResult<T, E>)
    requires
        forall|attempt: u32|
            1 <= attempt <= config.last_attempt() ==> call_requires(operation, (attempt,)),
        forall|attempt: nat|
            1 <= attempt < config.last_attempt() ==> call_requires(
                pause,
                (#[trigger] config.delay_after(attempt),),
            ),
    ensures
        match r {
            RetryResult::Success(value) => some_attempt_ended(
                operation,
                pause,
                config,
                Ok::<T, E>(value),
            ),
            RetryResult::Failed(error) => attempt_returned(
                operation,
                config.last_attempt(),
                Err::<T, E>(error),
            ) && pauses_made(pause, config, config.last_attempt()),
            RetryResult::PermanentFailure(_) => false,
        },
        forall|outcome: spec_fn(u32) -> Result<T, E>| #[trigger]
            returns_by_attempt(operation, outcome) ==> r == run_from(
                config.last_attempt(),
                outcome,
                1,
            ),
{
    let mut attempt: u32 = 0;
    let mut delay: u64 = config.initial_delay;
    loop
        invariant
            attempt < config.last_attempt(),
            delay == config.delay_after((attempt + 1) as nat),
            pauses_made(pause, config, (attempt + 1) as u32),
            forall|attempt: u32|
                1 <= attempt <= config.last_attempt() ==> call_requires(operation, (attempt,)),
            forall|attempt: nat|
                1 <= attempt < config.last_attempt() ==> call_requires(
                    pause,
                    (#[trigger] config.delay_after(attempt),),
                ),
            forall|outcome: spec_fn(u32) -> Result<T, E>| #[trigger]
                returns_by_attempt(operation, outcome) ==> run_from(
                    config.last_attempt(),
                    outcome,
                    1,
                ) == run_from(config.last_attempt(), outcome, (attempt + 1) as u32),
        decreases config.last_attempt() - attempt,
    {
        attempt = attempt + 1;
        match operation(attempt) {
            Ok(value) => {
                assert(attempt_returned(operation, attempt, Ok::<T, E>(value)));
                assert forall|outcome: spec_fn(u32) -> Result<T, E>| #[trigger]
                    returns_by_attempt(operation, outcome) implies RetryResult::<T, E>::Success(value)
                    == run_from(config.last_attempt(), outcome, 1) by {
                    assert(call_ensures(operation, (attempt,), Ok::<T, E>(value)));
                }
                return RetryResult::Success(value);
            },
            Err(error) => {
                assert forall|outcome: spec_fn(u32) -> Result<T, E>| #[trigger]
                    returns_by_attempt(operation, outcome) implies outcome(attempt) == Err::<T, E>(
                    error,
                ) by {
                    assert(call_ensures(operation, (attempt,), Err::<T, E>(error)));
                }
                match config.after_failure(attempt, delay) {
                    RetryStep::GiveUp => {
                        return RetryResult::Failed(error);
                    },
                    RetryStep::RetryAfter { pause: wait, next_delay } => {
                        assert(wait == config.delay_after(attempt as nat));
                        pause(wait);
                        assert(call_ensures(pause, (config.delay_after(attempt as nat),), ()));
                        delay = next_delay;
                    },
                }
            },
        }
    }
}

/// As [`retry_with_backoff`], but an error that is not transient ends the
/// run at once, as a `PermanentFailure`.
///
/// `Failed` carries the error of the last attempt, which was transient.
/// Where what the operation returns depends on the attempt's number alone,
/// the result is that of the first attempt that succeeds or fails for good,
/// and the failure of the last attempt where none does.
pub fn retry_on_transient<T, E: IsTransient, F: Fn(u32) -> Result<T, E>, P: Fn(u64)>(
    config: RetryConfig,
    operation: F,
    pause: P,
) -> (r: RetryResult<T, E>)
    requires
        forall|attempt: u32|
            1 <= attempt <= config.last_attempt() ==> call_requires(operation, (attempt,)),
        forall|attempt: nat|
            1 <= attempt < config.last_attempt() ==> call_requires(
                pause,
                (#[trigger] config.delay_after(attempt),),
            ),
    ensures
        match r {
            RetryResult::Success(value) => some_attempt_ended(
                operation,
                pause,
                config,
                Ok::<T, E>(value),
            ),
            RetryResult::Failed(error) => error.spec_is_transient() && attempt_returned(
                operation,
                config.last_attempt(),
                Err::<T, E>(error),
            ) && pauses_made(pause, config, config.last_attempt()),
            RetryResult::PermanentFailure(error) => !error.spec_is_transient() && some_attempt_ended(
                operation,
                pause,
                config,
                Err::<T, E>(error),
            ),
        },
        forall|outcome: spec_fn(u32) -> Result<T, E>| #[trigger]
            returns_by_attempt(operation, outcome) ==> r == run_while_transient_from(
                config.last_attempt(),
                outcome,
                1,
            ),
{
    let mut attempt: u32 = 0;
    let mut delay: u64 = config.initial_delay;
    loop
        invariant
            attempt < config.last_attempt(),
            delay == config.delay_after((attempt + 1) as nat),
            pauses_made(pause, config, (attempt + 1) as u32),
            forall|attempt: u32|
                1 <= attempt <= config.last_attempt() ==> call_requires(operation, (attempt,)),
            forall|attempt: nat|
                1 <= attempt < config.last_attempt() ==> call_requires(
                    pause,
                    (#[trigger] config.delay_after(attempt),),
                ),
            forall|outcome: spec_fn(u32) -> Result<T, E>| #[trigger]
                returns_by_attempt(operation, outcome) ==> run_while_transient_from(
                    config.last_attempt(),
                    outcome,
                    1,
                ) == run_while_transient_from(
                    config.last_attempt(),
                    outcome,
                    (attempt + 1) as u32,
                ),
        decreases config.last_attempt() - attempt,
    {
        attempt = attempt + 1;
        match operation(attempt) {
            Ok(value) => {
                assert(attempt_returned(operation, attempt, Ok::<T, E>(value)));
                assert forall|outcome: spec_fn(u32) -> Result<T, E>| #[trigger]
                    returns_by_attempt(operation, outcome) implies RetryResult::<T, E>::Success(value)
                    == run_while_transient_from(config.last_attempt(), outcome, 1) by {
                    assert(call_ensures(operation, (attempt,), Ok::<T, E>(value)));
                }
                return RetryResult::Success(value);
            },
            Err(error) => {
                assert forall|outcome: spec_fn(u32) -> Result<T, E>| #[trigger]
                    returns_by_attempt(operation, outcome) implies outcome(attempt) == Err::<T, E>(
                    error,
                ) by {
                    assert(call_ensures(operation, (attempt,), Err::<T, E>(error)));
                }
                if !error.is_transient() {
                    assert(attempt_returned(operation, attempt, Err::<T, E>(error)));
                    return RetryResult::PermanentFailure(error);
                }
                match config.after_failure(attempt, delay) {
                    RetryStep::GiveUp => {
                        return RetryResult::Failed(error);
                    },
                    RetryStep::RetryAfter { pause: wait, next_delay } => {
                        assert(wait == config.delay_after(attempt as nat));
                        pause(wait);
                        assert(call_ensures(pause, (config.delay_after(attempt as nat),), ()));
                        delay = next_delay;
                    },
                }
            },
        }
    }
}

/// No pause after the first is longer than `max_delay`.
pub proof fn law_delays_are_capped(config: RetryConfig, attempt: nat)
    requires
        attempt >= 2,
    ensures
        config.delay_after(attempt) <= config.max_delay,
{
}

} // verus!
