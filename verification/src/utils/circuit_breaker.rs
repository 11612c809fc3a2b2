//! A circuit breaker: it lets calls through while they succeed, refuses them
//! for a while once too many have failed in a row, and then probes.
//!
//! Time is a parameter: every function that needs it takes the reading of a
//! monotonic clock, in milliseconds.

use vstd::prelude::*;

verus! {

#[derive(Debug, Clone, Copy, PartialEq, Eq, Structural)]
pub enum CircuitState {
    /// Calls pass.
    Closed,
    /// Calls are refused.
    Open,
    /// Calls pass, as probes.
    HalfOpen,
}

#[derive(Debug, Clone, Copy, PartialEq, Eq, Structural)]
pub struct CircuitBreakerConfig {
    /// Failures in a row that open the circuit.
    pub failure_threshold: u32,
    /// How long the circuit stays open before a probe, in milliseconds.
    pub timeout: u64,
    /// Successes in a row that close the circuit again.
    pub success_threshold: u32,
}

impl Default for CircuitBreakerConfig {
    fn default() -> (r: Self)
        ensures
            r == (CircuitBreakerConfig {
                failure_threshold: 5,
                timeout: 60_000,
                success_threshold: 2,
            }),
    {
        CircuitBreakerConfig { failure_threshold: 5, timeout: 60_000, success_threshold: 2 }
    }
}

/// What a breaker remembers.
#[derive(Debug, Clone, Copy, PartialEq, Eq, Structural)]
pub struct CircuitBreakerState {
    pub state: CircuitState,
    pub failure_count: u32,
    pub success_count: u32,
    /// The clock reading at the last failure.
    pub last_failure_time: Option<u64>,
}

#[derive(Debug)]
pub enum CircuitBreakerError<E> {
    /// The call was refused and the operation was not run.
    CircuitOpen,
    /// The operation ran and failed.
    OperationFailed(E),
}

/// The time that has passed at `now` since `since`; none if the clock reads
/// less than before.
pub open spec fn elapsed(since: u64, now: u64) -> int {
    if now >= since {
        now - since
    } else {
        0
    }
}

/// A closed breaker that has seen nothing.
pub open spec fn initial_state() -> CircuitBreakerState {
    CircuitBreakerState {
        state: CircuitState::Closed,
        failure_count: 0,
        success_count: 0,
        last_failure_time: None,
    }
}

/// What holds of every state that a breaker reaches: a closed breaker has
/// fewer failures than open it, an open one knows when it last failed, and
/// successes are counted only while probing, below the number that closes.
pub open spec fn well_formed(config: CircuitBreakerConfig, s: CircuitBreakerState) -> bool {
    match s.state {
        CircuitState::Closed => s.success_count == 0 && (s.failure_count == 0 || s.failure_count
            < config.failure_threshold),
        CircuitState::Open => s.success_count == 0 && s.last_failure_time is Some,
        CircuitState::HalfOpen => s.success_count == 0 || s.success_count
            < config.success_threshold,
    }
}

/// Whether one more failure can be counted.
pub open spec fn can_count_failure(s: CircuitBreakerState) -> bool {
    s.state != CircuitState::Closed ==> s.failure_count < u32::MAX
}

/// The state after a call asks to pass at `now`, and whether it may. An
/// open breaker refuses until `timeout` has passed since the last failure;
/// it then starts probing.
pub open spec fn spec_allow(config: CircuitBreakerConfig, s: CircuitBreakerState, now: u64) -> (
    CircuitBreakerState,
    bool,
) {
    match (s.state, s.last_failure_time) {
        (CircuitState::Open, Some(last)) => if elapsed(last, now) >= config.timeout {
            (CircuitBreakerState { state: CircuitState::HalfOpen, success_count: 0, ..s }, true)
        } else {
            (s, false)
        },
        _ => (s, true),
    }
}

/// The state after a call that passed has succeeded.
pub open spec fn spec_on_success(
    config: CircuitBreakerConfig,
    s: CircuitBreakerState,
) -> CircuitBreakerState {
    match s.state {
        CircuitState::HalfOpen => if s.success_count + 1 >= config.success_threshold {
            initial_state()
        } else {
            CircuitBreakerState { success_count: (s.success_count + 1) as u32, ..s }
        },
        CircuitState::Closed => CircuitBreakerState { failure_count: 0, ..s },
        CircuitState::Open => s,
    }
}

/// The state after a call that passed has failed at `now`.
pub open spec fn spec_on_failure(
    config: CircuitBreakerConfig,
    s: CircuitBreakerState,
    now: u64,
) -> CircuitBreakerState {
    let counted = CircuitBreakerState {
        failure_count: (s.failure_count + 1) as u32,
        last_failure_time: Some(now),
        ..s
    };
    match s.state {
        CircuitState::Closed => if counted.failure_count >= config.failure_threshold {
            CircuitBreakerState { state: CircuitState::Open, ..counted }
        } else {
            counted
        },
        CircuitState::HalfOpen => CircuitBreakerState {
            state: CircuitState::Open,
            success_count: 0,
            ..counted
        },
        CircuitState::Open => counted,
    }
}

/// The state after every call of a run has passed and failed, at the given
/// clock readings.
pub open spec fn after_failures(
    config: CircuitBreakerConfig,
    s: CircuitBreakerState,
    times: Seq<u64>,
) -> CircuitBreakerState
    decreases times.len(),
{
    if times.len() == 0 {
        s
    } else {
        spec_on_failure(config, after_failures(config, s, times.drop_last()), times.last())
    }
}

/// The state after `n` calls in a row have passed and succeeded.
pub open spec fn after_successes(
    config: CircuitBreakerConfig,
    s: CircuitBreakerState,
    n: nat,
) -> CircuitBreakerState
    decreases n,
{
    if n == 0 {
        s
    } else {
        spec_on_success(config, after_successes(config, s, (n - 1) as nat))
    }
}

pub struct CircuitBreaker {
    state: CircuitBreakerState,
    config: CircuitBreakerConfig,
}

impl View for CircuitBreaker {
    type V = CircuitBreakerState;

    closed spec fn view(&self) -> CircuitBreakerState {
        self.state
    }
}

impl CircuitBreaker {
    pub closed spec fn config(&self) -> CircuitBreakerConfig {
        self.config
    }

    /// Every breaker that this module hands out is well formed, and stays so.
    pub open spec fn inv(&self) -> bool {
        well_formed(self.config(), self@)
    }

    pub fn new(config: CircuitBreakerConfig) -> (r: Self)
        ensures
            r@ == initial_state(),
            r.config() == config,
            r.inv(),
    {
        CircuitBreaker {
            state: CircuitBreakerState {
                state: CircuitState::Closed,
                failure_count: 0,
                success_count: 0,
                last_failure_time: None,
            },
            config,
        }
    }

    /// Asks whether a call may pass at `now`.
    pub fn allow(&mut self, now: u64) -> (allowed: bool)
        requires
            old(self).inv(),
        ensures
            (final(self)@, allowed) == spec_allow(old(self).config(), old(self)@, now),
            final(self).config() == old(self).config(),
            final(self).inv(),
            can_count_failure(old(self)@) ==> can_count_failure(final(self)@),
    {
        match self.state.state {
            CircuitState::Open => {
                match self.state.last_failure_time {
                    Some(last) => {
                        let waited = if now >= last {
                            now - last
                        } else {
                            0
                        };
                        if waited >= self.config.timeout {
                            self.state.state = CircuitState::HalfOpen;
                            self.state.success_count = 0;
                            true
                        } else {
                            false
                        }
                    },
                    None => true,
                }
            },
            CircuitState::HalfOpen | CircuitState::Closed => true,
        }
    }

    /// Records that a call that passed has succeeded.
    pub fn record_success(&mut self)
        requires
            old(self).inv(),
        ensures
            final(self)@ == spec_on_success(old(self).config(), old(self)@),
            final(self).config() == old(self).config(),
            final(self).inv(),
    {
        match self.state.state {
            CircuitState::HalfOpen => {
                self.state.success_count = self.state.success_count + 1;
                if self.state.success_count >= self.config.success_threshold {
                    self.state.state = CircuitState::Closed;
                    self.state.failure_count = 0;
                    self.state.success_count = 0;
                    self.state.last_failure_time = None;
                }
            },
            CircuitState::Closed => {
                self.state.failure_count = 0;
            },
            CircuitState::Open => {},
        }
    }

    /// Records that a call that passed has failed at `now`.
    pub fn record_failure(&mut self, now: u64)
        requires
            old(self).inv(),
            can_count_failure(old(self)@),
        ensures
            final(self)@ == spec_on_failure(old(self).config(), old(self)@, now),
            final(self).config() == old(self).config(),
            final(self).inv(),
    {
        self.state.failure_count = self.state.failure_count + 1;
        self.state.last_failure_time = Some(now);
        match self.state.state {
            CircuitState::Closed => {
                if self.state.failure_count >= self.config.failure_threshold {
                    self.state.state = CircuitState::Open;
                }
            },
            CircuitState::HalfOpen => {
                self.state.state = CircuitState::Open;
                self.state.success_count = 0;
            },
            CircuitState::Open => {},
        }
    }

    /// Runs `operation` under the breaker's protection, at clock reading
    /// `now`. A call that is refused returns `CircuitOpen` and leaves the
    /// breaker as it was; a call that passes returns what the operation
    /// returned, and the breaker has recorded it.
    ///
    /// The operation is run only where the call passes: it need not accept
    /// to be run where the call is refused.
    pub fn call<T, E, F: FnOnce() -> Result<T, E>>(&mut self, now: u64, operation: F) -> (r: Result<
        T,
        CircuitBreakerError<E>,
    >)
        requires
            old(self).inv(),
            can_count_failure(old(self)@),
            spec_allow(old(self).config(), old(self)@, now).1 ==> call_requires(operation, ()),
        ensures
            final(self).config() == old(self).config(),
            final(self).inv(),
            ({
                let (allowed_state, allowed) = spec_allow(old(self).config(), old(self)@, now);
                match r {
                    Ok(value) => allowed && call_ensures(operation, (), Ok::<T, E>(value))
                        && final(self)@ == spec_on_success(old(self).config(), allowed_state),
                    Err(CircuitBreakerError::OperationFailed(e)) => allowed && call_ensures(
                        operation,
                        (),
                        Err::<T, E>(e),
                    ) && final(self)@ == spec_on_failure(old(self).config(), allowed_state, now),
                    Err(CircuitBreakerError::CircuitOpen) => !allowed && final(self)@ == old(
                        self,
                    )@,
                }
            }),
    {
        if !self.allow(now) {
            return Err(CircuitBreakerError::CircuitOpen);
        }
        match operation() {
            Ok(value) => {
                self.record_success();
                Ok(value)
            },
            Err(e) => {
                self.record_failure(now);
                Err(CircuitBreakerError::OperationFailed(e))
            },
        }
    }

    /// Whether one more failure can be counted: it can, short of four
    /// thousand million failed probes without a reset.
    pub fn can_record_failure(&self) -> (r: bool)
        ensures
            r == can_count_failure(self@),
    {
        match self.state.state {
            CircuitState::Closed => true,
            _ => self.state.failure_count < u32::MAX,
        }
    }

    pub fn get_state(&self) -> (r: CircuitState)
        ensures
            r == self@.state,
    {
        self.state.state
    }

    pub fn get_failure_count(&self) -> (r: u32)
        ensures
            r == self@.failure_count,
    {
        self.state.failure_count
    }

    /// Closes the circuit and forgets every count.
    pub fn reset(&mut self)
        ensures
            final(self)@ == initial_state(),
            final(self).config() == old(self).config(),
            final(self).inv(),
    {
        self.state.state = CircuitState::Closed;
        self.state.failure_count = 0;
        self.state.success_count = 0;
        self.state.last_failure_time = None;
    }
}

impl<E> CircuitBreakerError<E> {
    /// The message for this error, given the message of the operation's own
    /// error.
    pub open spec fn message(&self, operation_error: Seq<char>) -> Seq<char> {
        match self {
            CircuitBreakerError::CircuitOpen => "Circuit breaker is open"@,
            CircuitBreakerError::OperationFailed(_) => "Operation failed: "@ + operation_error,
        }
    }

    /// The message for this error; `describe` gives the text of the
    /// operation's own error.
    pub fn to_string<F: Fn(&E) -> String>(&self, describe: F) -> (r: String)
        requires
            forall|e: &E| call_requires(describe, (e,)),
        ensures
            match self {
                CircuitBreakerError::CircuitOpen => r@ == self.message(Seq::empty()),
                CircuitBreakerError::OperationFailed(e) => exists|text: String|
                    call_ensures(describe, (e,), text) && r@ == self.message(text@),
            },
    {
        match self {
            CircuitBreakerError::CircuitOpen => "Circuit breaker is open".to_owned(),
            CircuitBreakerError::OperationFailed(e) => {
                let text = describe(e);
                let mut message = "Operation failed: ".to_owned();
                message.append(text.as_str());
                message
            },
        }
    }
}

/// Once as many calls in a row have failed as the threshold asks, counted
/// from a closed breaker without failures, the circuit is open, and it was
/// closed until then. From then on a call is refused, and the breaker left as
/// it is, for as long as the timeout has not passed since the last failure.
pub proof fn law_opens_after_threshold_failures(
    config: CircuitBreakerConfig,
    s: CircuitBreakerState,
    times: Seq<u64>,
)
    requires
        s.state == CircuitState::Closed,
        s.failure_count == 0,
        config.failure_threshold >= 1,
        times.len() == config.failure_threshold,
    ensures
        after_failures(config, s, times).state == CircuitState::Open,
        after_failures(config, s, times).last_failure_time == Some(times.last()),
        forall|k: int|
            0 <= k < times.len() ==> (#[trigger] after_failures(config, s, times.take(k))).state
                == CircuitState::Closed,
        forall|now: u64|
            elapsed(times.last(), now) < config.timeout ==> #[trigger] spec_allow(
                config,
                after_failures(config, s, times),
                now,
            ) == (after_failures(config, s, times), false),
{
    assert forall|k: int| 0 <= k <= times.len() implies ({
        let reached = #[trigger] after_failures(config, s, times.take(k));
        &&& reached.failure_count == k
        &&& (k < times.len() ==> reached.state == CircuitState::Closed)
        &&& (k == times.len() ==> reached.state == CircuitState::Open && reached.last_failure_time
            == Some(times.last()))
    }) by {
        lemma_failures_counted(config, s, times, k);
    }
    assert(times.take(times.len() as int) == times);
}

proof fn lemma_failures_counted(
    config: CircuitBreakerConfig,
    s: CircuitBreakerState,
    times: Seq<u64>,
    k: int,
)
    requires
        s.state == CircuitState::Closed,
        s.failure_count == 0,
        config.failure_threshold >= 1,
        times.len() == config.failure_threshold,
        0 <= k <= times.len(),
    ensures
        after_failures(config, s, times.take(k)).failure_count == k,
        k < times.len() ==> after_failures(config, s, times.take(k)).state == CircuitState::Closed,
        k == times.len() ==> after_failures(config, s, times.take(k)).state == CircuitState::Open
            && after_failures(config, s, times.take(k)).last_failure_time == Some(times.last()),
    decreases k,
{
    if k > 0 {
        lemma_failures_counted(config, s, times, k - 1);
        assert(times.take(k).drop_last() == times.take(k - 1));
        assert(times.take(k).last() == times[k - 1]);
    }
}

/// Once the timeout has passed since the last failure, an open breaker lets
/// the next call pass as a probe. If the probe fails the circuit is open
/// again, and calls are refused until the timeout has passed once more.
pub proof fn law_probe_after_timeout(
    config: CircuitBreakerConfig,
    s: CircuitBreakerState,
    now: u64,
    failed_at: u64,
)
    requires
        s.state == CircuitState::Open,
        s.last_failure_time is Some,
        elapsed(s.last_failure_time->0, now) >= config.timeout,
    ensures
        spec_allow(config, s, now).1,
        spec_allow(config, s, now).0.state == CircuitState::HalfOpen,
        spec_allow(config, s, now).0.success_count == 0,
        spec_on_failure(config, spec_allow(config, s, now).0, failed_at).state
            == CircuitState::Open,
        forall|later: u64|
            elapsed(failed_at, later) < config.timeout ==> !(#[trigger] spec_allow(
                config,
                spec_on_failure(config, spec_allow(config, s, now).0, failed_at),
                later,
            )).1,
{
}

/// A probing breaker that has counted no success yet keeps probing until as
/// many calls in a row have succeeded as the threshold asks; it is then
/// closed, with every count at zero.
pub proof fn law_closes_after_threshold_successes(
    config: CircuitBreakerConfig,
    s: CircuitBreakerState,
)
    requires
        s.state == CircuitState::HalfOpen,
        s.success_count == 0,
        config.success_threshold >= 1,
    ensures
        after_successes(config, s, config.success_threshold as nat) == initial_state(),
        forall|k: nat|
            k < config.success_threshold ==> (#[trigger] after_successes(config, s, k)).state
                == CircuitState::HalfOpen,
{
    assert forall|k: nat| k <= config.success_threshold implies ({
        let reached = #[trigger] after_successes(config, s, k);
        &&& (k < config.success_threshold ==> reached.state == CircuitState::HalfOpen
            && reached.success_count == k)
        &&& (k == config.success_threshold ==> reached == initial_state())
    }) by {
        lemma_successes_counted(config, s, k);
    }
}

proof fn lemma_successes_counted(config: CircuitBreakerConfig, s: CircuitBreakerState, k: nat)
    requires
        s.state == CircuitState::HalfOpen,
        s.success_count == 0,
        config.success_threshold >= 1,
        k <= config.success_threshold,
    ensures
        k < config.success_threshold ==> after_successes(config, s, k).state
            == CircuitState::HalfOpen && after_successes(config, s, k).success_count == k,
        k == config.success_threshold ==> after_successes(config, s, k) == initial_state(),
    decreases k,
{
    if k > 0 {
        lemma_successes_counted(config, s, (k - 1) as nat);
    }
}

/// Every step keeps a well-formed state well formed.
pub proof fn law_steps_keep_well_formed(
    config: CircuitBreakerConfig,
    s: CircuitBreakerState,
    now: u64,
)
    requires
        well_formed(config, s),
    ensures
        well_formed(config, initial_state()),
        well_formed(config, spec_allow(config, s, now).0),
        well_formed(config, spec_on_success(config, s)),
        can_count_failure(s) ==> well_formed(config, spec_on_failure(config, s, now)),
{
}

} // verus!
