//! What can be set from outside, and what it is set to where nothing is
//! said.

use vstd::prelude::*;

use crate::utils::circuit_breaker::CircuitBreakerConfig;
use crate::utils::retry::RetryConfig;

verus! {

#[derive(Debug, Clone)]
pub struct Config {
    /// Where the broker is first reached.
    pub broker_bootstrap: String,
    /// Where the database is first reached.
    pub database_contact_point: String,
    pub keyspace: String,
    /// The port of the endpoint that exposes the metrics.
    pub metrics_port: u16,
    /// How the relay retries a publication.
    pub cdc_retry: RetryConfig,
    /// The circuit breaker in front of the broker.
    pub broker_circuit: CircuitBreakerConfig,
    /// How often the health monitor probes the broker, in milliseconds.
    pub health_tick: u64,
    /// How often the coordinator asks for the health of the system, in
    /// milliseconds.
    pub coordinator_tick: u64,
}

impl Default for Config {
    fn default() -> (r: Self)
        ensures
            r.broker_bootstrap@ == "127.0.0.1:9092"@,
            r.database_contact_point@ == "127.0.0.1:9042"@,
            r.keyspace@ == "orders_ks"@,
            r.metrics_port == 9090,
            r.cdc_retry == (RetryConfig {
                max_attempts: 5,
                initial_delay: 50,
                max_delay: 30_000,
                multiplier: 2,
            }),
            r.broker_circuit == (CircuitBreakerConfig {
                failure_threshold: 5,
                timeout: 30_000,
                success_threshold: 3,
            }),
            r.health_tick == 10_000,
            r.coordinator_tick == 30_000,
    {
        Config {
            broker_bootstrap: "127.0.0.1:9092".to_owned(),
            database_contact_point: "127.0.0.1:9042".to_owned(),
            keyspace: "orders_ks".to_owned(),
            metrics_port: 9090,
            cdc_retry: RetryConfig::aggressive(),
            broker_circuit: CircuitBreakerConfig {
                failure_threshold: 5,
                timeout: 30_000,
                success_threshold: 3,
            },
            health_tick: 10_000,
            coordinator_tick: 30_000,
        }
    }
}

} // verus!
