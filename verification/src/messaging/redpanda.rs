use vstd::prelude::*;

use crate::utils::circuit_breaker::{
    can_count_failure, spec_allow, spec_on_failure, spec_on_success, CircuitBreaker,
    CircuitBreakerConfig, CircuitBreakerError, CircuitState,
};
use crate::utils::retry::IsTransient;

verus! {

/// Why a record did not reach the broker.
#[derive(Debug)]
pub enum PublishError {
    /// The circuit is open: the broker was not asked.
    Unavailable,
    /// The broker was asked and the send failed, for the reason given.
    Transient(String),
}

impl IsTransient for PublishError {
    open spec fn spec_is_transient(&self) -> bool {
        self is Transient
    }

    fn is_transient(&self) -> (r: bool) {
        match self {
            PublishError::Unavailable => false,
            PublishError::Transient(_) => true,
        }
    }
}

impl Clone for PublishError {
    fn clone(&self) -> (r: Self)
        ensures
            r == *self,
    {
        match self {
            PublishError::Unavailable => PublishError::Unavailable,
            PublishError::Transient(reason) => PublishError::Transient(reason.clone()),
        }
    }
}

impl PublishError {
    /// The message shown for this error.
    pub open spec fn message(&self) -> Seq<char> {
        match self {
            PublishError::Unavailable => "Circuit breaker open for Redpanda"@,
            PublishError::Transient(reason) => reason@,
        }
    }

    pub fn to_string(&self) -> (r: String)
        ensures
            r@ == self.message(),
    {
        match self {
            PublishError::Unavailable => "Circuit breaker open for Redpanda".to_owned(),
            PublishError::Transient(reason) => reason.clone(),
        }
    }
}

/// The settings of the circuit breaker in front of the broker: it opens
/// after 5 failures in a row, probes after 30 seconds, and closes again
/// after 3 successes in a row.
pub open spec fn broker_circuit() -> CircuitBreakerConfig {
    CircuitBreakerConfig { failure_threshold: 5, timeout: 30_000, success_threshold: 3 }
}

/// How long one send may take, in milliseconds.
pub const SEND_TIMEOUT_MS: u64 = 5_000;

/// The client of the broker: the circuit breaker through which every
/// record goes, and the address of the broker. Sending is the caller's.
pub struct RedpandaClient {
    brokers: String,
    circuit_breaker: CircuitBreaker,
}

impl RedpandaClient {
    /// The circuit breaker in front of the broker.
    pub closed spec fn breaker(&self) -> CircuitBreaker {
        self.circuit_breaker
    }

    /// The addresses of the brokers, as given.
    pub closed spec fn brokers(&self) -> Seq<char> {
        self.brokers@
    }

    /// The breaker is well formed and has the settings of [`broker_circuit`].
    pub open spec fn inv(&self) -> bool {
        self.breaker().inv() && self.breaker().config() == broker_circuit()
    }

    /// A client for the brokers at `brokers`, with its circuit closed.
    pub fn new(brokers: &str) -> (r: Self)
        ensures
            r.inv(),
            r.brokers() == brokers@,
            r.breaker()@.state == CircuitState::Closed,
            r.breaker()@.failure_count == 0,
    {
        let cb_config = CircuitBreakerConfig {
            failure_threshold: 5,
            timeout: 30_000,
            success_threshold: 3,
        };
        RedpandaClient { brokers: brokers.to_owned(), circuit_breaker: CircuitBreaker::new(cb_config) }
    }

    /// The settings with which the producer is to be made: the brokers to
    /// start from, and the time after which a message is given up.
    pub fn producer_settings(&self) -> (r: Vec<(String, String)>)
        ensures
            r@.len() == 2,
            r@[0].0@ == "bootstrap.servers"@,
            r@[0].1@ == self.brokers(),
            r@[1].0@ == "message.timeout.ms"@,
            r@[1].1@ == "5000"@,
    {
        let mut settings: Vec<(String, String)> = Vec::new();
        settings.push(("bootstrap.servers".to_owned(), self.brokers.clone()));
        settings.push(("message.timeout.ms".to_owned(), "5000".to_owned()));
        settings
    }

    /// Publishes one record through the circuit breaker, at clock reading
    /// `now`; `send` hands the record to the broker.
    ///
    /// With the circuit open the record is not sent, and the error is
    /// `Unavailable`: `send` need not accept the record then. Otherwise
    /// `send` is run on the record: its success is the result, and its
    /// failure comes back as `Transient` with its reason; either way the
    /// breaker has recorded it.
    pub fn publish<F: FnOnce(&str, &str, &str) -> Result<(), String>>(
        &mut self,
        now: u64,
        topic: &str,
        key: &str,
        payload: &str,
        send: F,
    ) -> (r: Result<(), PublishError>)
        requires
            old(self).inv(),
            can_count_failure(old(self).breaker()@),
            spec_allow(broker_circuit(), old(self).breaker()@, now).1 ==> call_requires(
                send,
                (topic, key, payload),
            ),
        ensures
            final(self).inv(),
            final(self).brokers() == old(self).brokers(),
            ({
                let (allowed_state, allowed) = spec_allow(
                    broker_circuit(),
                    old(self).breaker()@,
                    now,
                );
                match r {
                    Ok(_) => allowed && call_ensures(
                        send,
                        (topic, key, payload),
                        Ok::<(), String>(()),
                    ) && final(self).breaker()@ == spec_on_success(broker_circuit(), allowed_state),
                    Err(PublishError::Transient(reason)) => allowed && call_ensures(
                        send,
                        (topic, key, payload),
                        Err::<(), String>(reason),
                    ) && final(self).breaker()@ == spec_on_failure(
                        broker_circuit(),
                        allowed_state,
                        now,
                    ),
                    Err(PublishError::Unavailable) => !allowed && final(self).breaker()@ == old(
                        self,
                    ).breaker()@,
                }
            }),
    {
        let attempt = || -> (sent: Result<(), String>)
            requires
                call_requires(send, (topic, key, payload)),
            ensures
                call_ensures(send, (topic, key, payload), sent),
            { send(topic, key, payload) };
        match self.circuit_breaker.call(now, attempt) {
            Ok(()) => Ok(()),
            Err(CircuitBreakerError::CircuitOpen) => Err(PublishError::Unavailable),
            Err(CircuitBreakerError::OperationFailed(reason)) => Err(PublishError::Transient(reason)),
        }
    }

    /// Asks the circuit breaker whether a record may be sent at clock
    /// reading `now`. A caller whose send cannot run inside [`Self::publish`]
    /// asks here, sends where the answer is `Ok`, and hands what the send
    /// returned to [`Self::finish_publish`].
    pub fn begin_publish(&mut self, now: u64) -> (r: Result<(), PublishError>)
        requires
            old(self).inv(),
        ensures
            final(self).inv(),
            final(self).brokers() == old(self).brokers(),
            final(self).breaker()@ == spec_allow(broker_circuit(), old(self).breaker()@, now).0,
            r is Ok == spec_allow(broker_circuit(), old(self).breaker()@, now).1,
            r is Err ==> r == Err::<(), PublishError>(PublishError::Unavailable),
            can_count_failure(old(self).breaker()@) ==> can_count_failure(final(self).breaker()@),
    {
        if self.circuit_breaker.allow(now) {
            Ok(())
        } else {
            Err(PublishError::Unavailable)
        }
    }

    /// Records what a send that was allowed returned, at clock reading
    /// `now`: its success is the result, and its failure comes back as
    /// `Transient` with its reason.
    pub fn finish_publish(&mut self, now: u64, sent: Result<(), String>) -> (r: Result<
        (),
        PublishError,
    >)
        requires
            old(self).inv(),
            can_count_failure(old(self).breaker()@),
        ensures
            final(self).inv(),
            final(self).brokers() == old(self).brokers(),
            match sent {
                Ok(_) => r is Ok && final(self).breaker()@ == spec_on_success(
                    broker_circuit(),
                    old(self).breaker()@,
                ),
                Err(reason) => r == Err::<(), PublishError>(PublishError::Transient(reason))
                    && final(self).breaker()@ == spec_on_failure(
                    broker_circuit(),
                    old(self).breaker()@,
                    now,
                ),
            },
    {
        match sent {
            Ok(()) => {
                self.circuit_breaker.record_success();
                Ok(())
            },
            Err(reason) => {
                self.circuit_breaker.record_failure(now);
                Err(PublishError::Transient(reason))
            },
        }
    }

    /// Whether the breaker can count one more failure: it can, short of
    /// four thousand million failed probes without a reset.
    pub fn can_publish(&self) -> (r: bool)
        ensures
            r == can_count_failure(self.breaker()@),
    {
        self.circuit_breaker.can_record_failure()
    }

    pub fn get_circuit_breaker_state(&self) -> (r: CircuitState)
        ensures
            r == self.breaker()@.state,
    {
        self.circuit_breaker.get_state()
    }

    /// Closes the circuit and forgets every count.
    pub fn reset_circuit_breaker(&mut self)
        requires
            old(self).inv(),
        ensures
            final(self).inv(),
            final(self).brokers() == old(self).brokers(),
            final(self).breaker()@ == crate::utils::circuit_breaker::initial_state(),
    {
        self.circuit_breaker.reset();
    }
}

} // verus!
