use event_outbox::actors::infrastructure::coordinator::HEALTH_CHECK_INTERVAL_MS;
use event_outbox::actors::infrastructure::health_monitor::PROBE_INTERVAL_MS;
use event_outbox::config::Config;
use event_outbox::utils::{CircuitBreakerConfig, RetryConfig};

#[test]
fn what_is_set_where_nothing_is_said() {
    let config = Config::default();
    assert_eq!(config.broker_bootstrap, "127.0.0.1:9092");
    assert_eq!(config.database_contact_point, "127.0.0.1:9042");
    assert_eq!(config.keyspace, "orders_ks");
    assert_eq!(config.metrics_port, 9090);
    assert_eq!(config.cdc_retry, RetryConfig::aggressive());
    assert_eq!(
        config.broker_circuit,
        CircuitBreakerConfig { failure_threshold: 5, timeout: 30_000, success_threshold: 3 }
    );
    assert_eq!(config.health_tick, 10_000);
    assert_eq!(config.coordinator_tick, 30_000);
    assert_eq!(config.health_tick, PROBE_INTERVAL_MS);
    assert_eq!(config.coordinator_tick, HEALTH_CHECK_INTERVAL_MS);
}
