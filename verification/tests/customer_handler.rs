use event_outbox::domain::customer::{
    CustomerCommand, CustomerCommandHandler, CustomerError, CustomerEvent, CustomerRegistered,
    CustomerTier, Email,
};
use event_outbox::event_sourcing::store::{CommandError, StoreError};
use event_outbox::event_sourcing::{EventEnvelope, EventStore};

fn serialize(event: &CustomerEvent) -> Result<String, String> {
    Ok(format!("{:?}", event))
}

fn handler() -> CustomerCommandHandler {
    CustomerCommandHandler::new(EventStore::new("Customer", "customer-events"))
}

fn register(email: &str) -> CustomerCommand {
    CustomerCommand::RegisterCustomer {
        customer_id: 1,
        email: Email::new(email),
        first_name: "John".to_string(),
        last_name: "Doe".to_string(),
        phone: None,
    }
}

fn history() -> Vec<EventEnvelope<CustomerEvent>> {
    vec![EventEnvelope::new(
        1,
        1,
        "CustomerRegistered".to_string(),
        CustomerEvent::Registered(CustomerRegistered {
            email: Email::new("john.doe@example.com"),
            first_name: "John".to_string(),
            last_name: "Doe".to_string(),
            phone: None,
        }),
        2,
    )]
}

#[test]
fn registering_a_customer_prepares_the_first_event() {
    let batch = handler().handle(1, register("john.doe@example.com"), 7, 0, vec![], serialize).unwrap();
    assert_eq!(batch.new_version(), 1);
    assert_eq!(batch.events.len(), 1);
    assert_eq!(batch.events[0].event_type, "CustomerRegistered");
    assert_eq!(batch.events[0].sequence_number, 1);
    assert_eq!(batch.events[0].correlation_id, 7);
    assert_eq!(batch.outbox.len(), 1);
    assert_eq!(batch.outbox[0].topic, "customer-events");
    assert_eq!(batch.outbox[0].aggregate_type, "Customer");
    assert_eq!(batch.outbox[0].partition_key, "00000000-0000-0000-0000-000000000001");
    assert_eq!(batch.outbox[0].payload, batch.events[0].event_data);
}

#[test]
fn a_registration_that_breaks_a_rule_is_refused() {
    let result = handler().handle(1, register("nowhere"), 7, 0, vec![], serialize);
    assert!(matches!(
        result,
        Err(CommandError::Rejected(CustomerError::InvalidEmail(text))) if text == "nowhere"
    ));
}

#[test]
fn a_customer_that_does_not_exist_can_only_be_registered() {
    let result = handler().handle(
        1,
        CustomerCommand::UpgradeTier { new_tier: CustomerTier::Gold },
        7,
        0,
        vec![],
        serialize,
    );
    assert!(matches!(result, Err(CommandError::AggregateNotFound(1))));
}

#[test]
fn a_command_on_a_customer_builds_on_its_version() {
    let batch = handler()
        .handle(
            1,
            CustomerCommand::UpgradeTier { new_tier: CustomerTier::Gold },
            7,
            1,
            history(),
            serialize,
        )
        .unwrap();
    assert_eq!(batch.expected_version, 1);
    assert_eq!(batch.new_version(), 2);
    assert_eq!(batch.events[0].event_type, "CustomerTierUpgraded");
    assert_eq!(batch.events[0].sequence_number, 2);
}

#[test]
fn a_command_that_changes_nothing_has_nothing_to_append() {
    let result = handler().handle(
        1,
        CustomerCommand::ChangeEmail { new_email: Email::new("john.doe@example.com") },
        7,
        1,
        history(),
        serialize,
    );
    assert!(matches!(result, Err(CommandError::Store(StoreError::EmptyEvents))));
}

#[test]
fn every_customer_event_has_its_tag() {
    let event = CustomerEvent::Registered(CustomerRegistered {
        email: Email::new("a@b"),
        first_name: "A".to_string(),
        last_name: "B".to_string(),
        phone: None,
    });
    assert_eq!(event.type_tag(), "CustomerRegistered");
    assert_eq!(format!("{:?}", event.clone()), format!("{:?}", event));
}

#[test]
fn an_event_that_cannot_be_serialized_fails_the_command() {
    let result = handler().handle(
        1,
        register("john.doe@example.com"),
        7,
        0,
        vec![],
        |_: &CustomerEvent| Err("no".to_string()),
    );
    assert!(matches!(
        result,
        Err(CommandError::Store(StoreError::Serialization(reason))) if reason == "no"
    ));
}

#[test]
fn a_missing_customer_is_reported_whatever_the_history_holds() {
    let result = handler().handle(
        1,
        CustomerCommand::UpgradeTier { new_tier: CustomerTier::Gold },
        7,
        0,
        history(),
        |_: &CustomerEvent| Err("no".to_string()),
    );
    assert!(matches!(result, Err(CommandError::AggregateNotFound(1))));
}
