use event_outbox::actors::base::{
    ActorMetadata, ComponentHealth, HealthStatus, SupervisionStrategy,
};
use event_outbox::actors::infrastructure::{
    AddToDlq, Child, CoordinatorAction, CoordinatorActor, DlqActor, DlqMessage, GetDlqMessages,
    GetDlqStats, GetSystemHealth, HealthMonitorActor, LogLevel, Shutdown, SystemHealth,
    UpdateHealth,
};
use event_outbox::platform::Timestamp;
use event_outbox::utils::CircuitState;

fn update(component: &str, status: HealthStatus) -> UpdateHealth {
    UpdateHealth { component: component.to_string(), status, details: None }
}

#[test]
fn the_health_of_the_system_is_that_of_its_worst_component() {
    let mut monitor = HealthMonitorActor::new();
    monitor.update_health(update("cdc_processor", HealthStatus::Healthy));
    monitor.update_health(update("dlq_actor", HealthStatus::Healthy));
    monitor.update_health(update(
        "redpanda",
        HealthStatus::Degraded("Circuit breaker half-open".to_string()),
    ));

    let health = monitor.get_system_health(GetSystemHealth);
    assert_eq!(
        health.overall_status,
        HealthStatus::Degraded("Some components degraded".to_string())
    );
    assert_eq!(health.components.len(), 3);

    monitor
        .update_health(update("redpanda", HealthStatus::Unhealthy("Circuit breaker open".to_string())));
    let health = monitor.get_system_health(GetSystemHealth);
    assert_eq!(
        health.overall_status,
        HealthStatus::Unhealthy("redpanda: Circuit breaker open".to_string())
    );
    assert_eq!(health.components.len(), 3);
    assert_eq!(
        health.components.iter().map(|c| c.name.as_str()).collect::<Vec<_>>(),
        vec!["cdc_processor", "dlq_actor", "redpanda"]
    );
}

#[test]
fn a_system_without_components_or_with_healthy_ones_is_healthy() {
    let mut monitor = HealthMonitorActor::new();
    assert_eq!(monitor.get_system_health(GetSystemHealth).overall_status, HealthStatus::Healthy);
    monitor.update_health(update("a", HealthStatus::Healthy));
    assert_eq!(monitor.get_system_health(GetSystemHealth).overall_status, HealthStatus::Healthy);
}

#[test]
fn the_unhealthy_are_all_named_in_the_order_they_first_reported() {
    let mut monitor = HealthMonitorActor::new();
    monitor.update_health(update("a", HealthStatus::Unhealthy("down".to_string())));
    monitor.update_health(update("b", HealthStatus::Degraded("slow".to_string())));
    monitor.update_health(update("c", HealthStatus::Unhealthy("gone".to_string())));
    monitor.update_health(update("d", HealthStatus::Unhealthy("".to_string())));
    monitor.update_health(update("a", HealthStatus::Unhealthy("still down".to_string())));
    assert_eq!(
        monitor.get_system_health(GetSystemHealth).overall_status,
        HealthStatus::Unhealthy("a: still down, c: gone, d: ".to_string())
    );
}

#[test]
fn a_report_replaces_the_earlier_one_of_the_same_component() {
    let mut monitor = HealthMonitorActor::new();
    monitor.update_health(UpdateHealth {
        component: "a".to_string(),
        status: HealthStatus::Healthy,
        details: Some("started".to_string()),
    });
    monitor.update_health(update("b", HealthStatus::Healthy));
    monitor.update_health(update("a", HealthStatus::Degraded("slow".to_string())));
    assert_eq!(monitor.components.len(), 2);
    assert_eq!(monitor.components[0].name, "a");
    assert_eq!(monitor.components[0].status, HealthStatus::Degraded("slow".to_string()));
    assert_eq!(monitor.components[0].details, None);
    assert_eq!(monitor.components[1].name, "b");
}

#[test]
fn the_state_of_the_circuit_is_the_health_of_the_broker() {
    let report = HealthMonitorActor::check_redpanda_health(CircuitState::Closed);
    assert_eq!(report.component, "redpanda");
    assert_eq!(report.status, HealthStatus::Healthy);
    assert_eq!(report.details, None);
    assert_eq!(
        HealthMonitorActor::check_redpanda_health(CircuitState::HalfOpen).status,
        HealthStatus::Degraded("Circuit breaker half-open".to_string())
    );
    assert_eq!(
        HealthMonitorActor::check_redpanda_health(CircuitState::Open).status,
        HealthStatus::Unhealthy("Circuit breaker open".to_string())
    );
}

#[test]
fn the_three_kinds_of_health() {
    assert!(HealthStatus::Healthy.is_healthy());
    assert!(!HealthStatus::Healthy.is_degraded());
    assert!(HealthStatus::Degraded("x".to_string()).is_degraded());
    assert!(!HealthStatus::Degraded("x".to_string()).is_unhealthy());
    assert!(HealthStatus::Unhealthy("x".to_string()).is_unhealthy());
    assert!(!HealthStatus::Unhealthy("x".to_string()).is_healthy());
    assert_eq!(
        HealthStatus::Unhealthy("x".to_string()).clone(),
        HealthStatus::Unhealthy("x".to_string())
    );

    let health = ComponentHealth::new("relay", HealthStatus::Healthy).with_details("running");
    assert_eq!(health.name, "relay");
    assert_eq!(health.status, HealthStatus::Healthy);
    assert_eq!(health.details, Some("running".to_string()));
    let copy = health.clone();
    assert_eq!(copy.last_check, health.last_check);
    assert_eq!(copy.details, health.details);

    let metadata = ActorMetadata {
        name: "relay".to_string(),
        description: "relays".to_string(),
        strategy: SupervisionStrategy::Restart,
    };
    assert_eq!(metadata.clone().strategy, SupervisionStrategy::Restart);
    assert_ne!(SupervisionStrategy::Stop, SupervisionStrategy::Escalate);
}

#[test]
fn the_coordinator_starts_the_monitor_then_the_queue_then_the_relay() {
    let mut coordinator = CoordinatorActor::new();
    assert!(!coordinator.cdc_processor && !coordinator.dlq_actor && !coordinator.health_monitor);
    let actions = coordinator.on_start();
    assert_eq!(
        actions,
        vec![
            CoordinatorAction::Start(Child::HealthMonitor),
            CoordinatorAction::Start(Child::DlqActor),
            CoordinatorAction::ReportStarted(Child::DlqActor),
            CoordinatorAction::Start(Child::CdcProcessor),
            CoordinatorAction::ReportStarted(Child::CdcProcessor),
            CoordinatorAction::ScheduleHealthCheck { every_ms: 30_000 },
        ]
    );
    assert!(coordinator.cdc_processor && coordinator.dlq_actor && coordinator.health_monitor);

    let report = CoordinatorActor::started_report(Child::DlqActor).unwrap();
    assert_eq!(report.component, "dlq_actor");
    assert_eq!(report.status, HealthStatus::Healthy);
    assert_eq!(report.details, Some("DLQ actor started".to_string()));
    let report = CoordinatorActor::started_report(Child::CdcProcessor).unwrap();
    assert_eq!(report.component, "cdc_processor");
    assert_eq!(report.details, Some("CDC processor started".to_string()));
    assert!(CoordinatorActor::started_report(Child::HealthMonitor).is_none());
}

#[test]
fn the_coordinator_stops_the_relay_first_and_itself_last() {
    let mut coordinator = CoordinatorActor::new();
    assert_eq!(coordinator.handle(Shutdown), vec![CoordinatorAction::StopSelf]);
    coordinator.on_start();
    assert_eq!(
        coordinator.handle(Shutdown),
        vec![
            CoordinatorAction::Stop(Child::CdcProcessor),
            CoordinatorAction::Stop(Child::DlqActor),
            CoordinatorAction::Stop(Child::HealthMonitor),
            CoordinatorAction::StopSelf,
        ]
    );
    let mut partly = CoordinatorActor { cdc_processor: false, health_monitor: true, dlq_actor: true };
    assert_eq!(
        partly.handle(Shutdown),
        vec![
            CoordinatorAction::Stop(Child::DlqActor),
            CoordinatorAction::Stop(Child::HealthMonitor),
            CoordinatorAction::StopSelf,
        ]
    );
}

#[test]
fn the_worse_the_health_the_louder_the_log() {
    let health = |overall_status| SystemHealth {
        overall_status,
        components: vec![],
        check_time: Timestamp { millis: 0 },
    };
    assert_eq!(
        CoordinatorActor::report_health(&health(HealthStatus::Healthy)),
        (LogLevel::Debug, "System health check: Healthy".to_string())
    );
    assert_eq!(
        CoordinatorActor::report_health(&health(HealthStatus::Degraded("d".to_string()))),
        (LogLevel::Warn, "System health check: Degraded - d".to_string())
    );
    assert_eq!(
        CoordinatorActor::report_health(&health(HealthStatus::Unhealthy("u".to_string()))),
        (LogLevel::Error, "System health check: Unhealthy - u".to_string())
    );
}

fn dead_letter(id: u128, event_type: &str) -> DlqMessage {
    DlqMessage {
        id,
        aggregate_id: 1,
        event_type: event_type.to_string(),
        payload: "p".to_string(),
        error_message: "e".to_string(),
        failure_count: 5,
        first_failed_at: Timestamp { millis: 1 },
        last_failed_at: Timestamp { millis: 2 },
    }
}

#[test]
fn a_dead_letter_is_stored_as_it_came() {
    let row = DlqActor::new().add(AddToDlq {
        id: 4,
        aggregate_id: 5,
        event_type: "OrderCreated".to_string(),
        payload: "p".to_string(),
        error_message: "e".to_string(),
        failure_count: 5,
        first_failed_at: Timestamp { millis: 1 },
    });
    assert_eq!(row.message.id, 4);
    assert_eq!(row.message.aggregate_id, 5);
    assert_eq!(row.message.event_type, "OrderCreated");
    assert_eq!(row.message.payload, "p");
    assert_eq!(row.message.error_message, "e");
    assert_eq!(row.message.failure_count, 5);
    assert_eq!(row.message.first_failed_at, Timestamp { millis: 1 });
    assert_eq!(row.message.last_failed_at, row.created_at);
}

#[test]
fn the_dead_letters_are_listed_up_to_the_limit() {
    let dlq = DlqActor::new();
    let stored = || vec![dead_letter(1, "A"), dead_letter(2, "B"), dead_letter(3, "A")];
    let ids = |limit: i32| -> Vec<u128> {
        dlq.list(stored(), GetDlqMessages { limit }).iter().map(|m| m.id).collect()
    };
    assert_eq!(ids(2), vec![1, 2]);
    assert_eq!(ids(3), vec![1, 2, 3]);
    assert_eq!(ids(10), vec![1, 2, 3]);
    assert_eq!(ids(0), Vec::<u128>::new());
    assert_eq!(ids(-1), Vec::<u128>::new());
}

#[test]
fn the_dead_letters_are_counted_by_event_type() {
    let dlq = DlqActor::new();
    let stored = vec![
        dead_letter(1, "OrderCreated"),
        dead_letter(2, "OrderShipped"),
        dead_letter(3, "OrderCreated"),
        dead_letter(4, "OrderCreated"),
        dead_letter(5, "CustomerRegistered"),
    ];
    let stats = dlq.stats(&stored, GetDlqStats);
    assert_eq!(stats.total_messages, 5);
    assert_eq!(
        stats.by_event_type,
        vec![
            ("OrderCreated".to_string(), 3),
            ("OrderShipped".to_string(), 1),
            ("CustomerRegistered".to_string(), 1),
        ]
    );
    let stats = dlq.stats(&vec![], GetDlqStats);
    assert_eq!(stats.total_messages, 0);
    assert!(stats.by_event_type.is_empty());
    assert_eq!(dead_letter(1, "A").clone().event_type, "A");
}
