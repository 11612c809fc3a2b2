use event_outbox::event_sourcing::{DomainEvent, EventEnvelope};
use uuid::Uuid;

#[derive(Clone, Debug)]
struct TestEvent {
    data: String,
}

impl DomainEvent for TestEvent {
    fn event_type() -> &'static str {
        "TestEvent"
    }
}

#[test]
fn test_event_envelope_creation() {
    let aggregate_id = Uuid::new_v4().as_u128();
    let correlation_id = Uuid::new_v4().as_u128();

    let event = TestEvent { data: "test".to_string() };

    let envelope = EventEnvelope::new(
        aggregate_id,
        1,
        TestEvent::event_type().to_string(),
        event,
        correlation_id,
    );

    assert_eq!(envelope.aggregate_id, aggregate_id);
    assert_eq!(envelope.sequence_number, 1);
    assert_eq!(envelope.event_type, "TestEvent");
    assert_eq!(envelope.correlation_id, correlation_id);
}

#[test]
fn a_new_envelope_is_at_version_one_and_names_nobody() {
    let envelope =
        EventEnvelope::new(1, 1, "TestEvent".to_string(), TestEvent { data: "d".to_string() }, 2);
    assert_eq!(envelope.event_version, 1);
    assert_eq!(envelope.event_data.data, "d");
    assert_eq!(envelope.causation_id, None);
    assert_eq!(envelope.user_id, None);
    assert!(envelope.metadata.is_empty());
    assert_eq!(TestEvent::event_version(), 1);
}

#[test]
fn two_envelopes_have_two_identifiers() {
    let a = EventEnvelope::new(1, 1, "T".to_string(), TestEvent { data: "d".to_string() }, 2);
    let b = EventEnvelope::new(1, 1, "T".to_string(), TestEvent { data: "d".to_string() }, 2);
    assert_ne!(a.event_id, b.event_id);
    // Version 4, variant 1, as for every random identifier.
    assert_eq!((a.event_id >> 76) & 0xf, 4);
    assert_eq!((a.event_id >> 62) & 0x3, 2);
}

#[test]
fn the_builders_set_one_field_each() {
    let envelope =
        EventEnvelope::new(1, 3, "T".to_string(), TestEvent { data: "d".to_string() }, 2)
            .with_user(10)
            .with_causation(11)
            .with_metadata("source".to_string(), "test".to_string())
            .with_metadata("tenant".to_string(), "a".to_string())
            .with_metadata("source".to_string(), "again".to_string());
    assert_eq!(envelope.user_id, Some(10));
    assert_eq!(envelope.causation_id, Some(11));
    assert_eq!(envelope.sequence_number, 3);
    assert_eq!(
        envelope.metadata,
        vec![
            ("source".to_string(), "again".to_string()),
            ("tenant".to_string(), "a".to_string()),
        ]
    );
}
