use event_outbox::domain::order::{
    OrderAggregate, OrderCommand, OrderCommandHandler, OrderConfirmed, OrderCreated, OrderError,
    OrderEvent, OrderItem, OrderStatus,
};
use event_outbox::event_sourcing::store::{
    AggregateLoadError, AppendBatch, BatchOutcome, CommandError, OutboxRow, StoreError,
    StoredEvent,
};
use event_outbox::event_sourcing::{EventEnvelope, EventStore, LoadError};
use event_outbox::platform::Timestamp;
use std::collections::HashMap;
use uuid::Uuid;

fn new_id() -> u128 {
    Uuid::new_v4().as_u128()
}

fn now() -> Timestamp {
    Timestamp { millis: chrono::Utc::now().timestamp_millis() }
}

/// Writes an order event as text: the tag and the data.
fn serialize(event: &OrderEvent) -> Result<String, String> {
    Ok(match event {
        OrderEvent::Created(e) => format!(
            "{{\"type\":\"Created\",\"data\":{{\"customer_id\":{},\"items\":[{}]}}}}",
            e.customer_id,
            e.items
                .iter()
                .map(|i| format!("{}:{}", i.product_id, i.quantity))
                .collect::<Vec<_>>()
                .join(",")
        ),
        OrderEvent::Confirmed(e) => {
            format!("{{\"type\":\"Confirmed\",\"data\":{{\"confirmed_at\":{}}}}}", e.confirmed_at.millis)
        }
        other => format!("{{\"type\":\"Other\",\"data\":\"{:?}\"}}", other),
    })
}

/// Reads back what `serialize` wrote.
fn deserialize(text: &String) -> Result<OrderEvent, String> {
    if let Some(rest) = text.strip_prefix("{\"type\":\"Created\",\"data\":{\"customer_id\":") {
        let (customer, rest) = rest.split_once(",\"items\":[").ok_or("no items")?;
        let items = rest.trim_end_matches("]}}");
        let mut lines = Vec::new();
        for item in items.split(',').filter(|s| !s.is_empty()) {
            let (product, quantity) = item.split_once(':').ok_or("no quantity")?;
            lines.push(OrderItem {
                product_id: product.parse().map_err(|_| "bad product")?,
                quantity: quantity.parse().map_err(|_| "bad quantity")?,
            });
        }
        Ok(OrderEvent::Created(OrderCreated {
            customer_id: customer.parse().map_err(|_| "bad customer")?,
            items: lines,
        }))
    } else if let Some(rest) = text.strip_prefix("{\"type\":\"Confirmed\",\"data\":{\"confirmed_at\":")
    {
        let millis = rest.trim_end_matches("}}").parse().map_err(|_| "bad time")?;
        Ok(OrderEvent::Confirmed(OrderConfirmed { confirmed_at: Timestamp { millis } }))
    } else {
        Err(format!("unknown event: {}", text))
    }
}

/// The three tables, in memory: a batch is written whole or not at all.
struct Database {
    events: Vec<StoredEvent>,
    outbox: Vec<OutboxRow>,
    sequences: HashMap<u128, i64>,
}

impl Database {
    fn new() -> Self {
        Database { events: Vec::new(), outbox: Vec::new(), sequences: HashMap::new() }
    }

    fn sequence_row(&self, aggregate_id: u128) -> Option<i64> {
        self.sequences.get(&aggregate_id).copied()
    }

    fn rows_of(&self, aggregate_id: u128) -> Vec<StoredEvent> {
        let mut rows: Vec<StoredEvent> =
            self.events.iter().filter(|r| r.aggregate_id == aggregate_id).cloned().collect();
        rows.sort_by_key(|r| r.sequence_number);
        rows
    }

    fn write(&mut self, batch: &AppendBatch) -> BatchOutcome {
        let current = self.sequence_row(batch.aggregate_id).unwrap_or(0);
        if current != batch.expected_version {
            return BatchOutcome::Collision { current };
        }
        self.events.extend(batch.events.iter().cloned());
        self.outbox.extend(batch.outbox.iter().cloned());
        self.sequences.insert(batch.sequence.aggregate_id, batch.sequence.current_sequence);
        BatchOutcome::Applied
    }
}

fn order_store() -> EventStore<OrderEvent> {
    EventStore::new("Order", "order-events")
}

/// One command, from the read to the write, as a caller runs it.
fn submit(
    database: &mut Database,
    handler: &OrderCommandHandler,
    aggregate_id: u128,
    command: OrderCommand,
) -> Result<i64, String> {
    let store = &handler.event_store;
    let current_version = store.get_current_version(database.sequence_row(aggregate_id));
    let history = store
        .load_events(database.rows_of(aggregate_id), deserialize)
        .map_err(|e| e.to_string())?;
    let batch = handler
        .handle(aggregate_id, command, new_id(), current_version, history, serialize)
        .map_err(|e| format!("{:?}", e))?;
    let outcome = database.write(&batch);
    store.complete_append(&batch, outcome).map_err(|e| e.to_string())
}

fn create_order(order_id: u128, customer_id: u128, first: u128, second: u128) -> OrderCommand {
    OrderCommand::CreateOrder {
        order_id,
        customer_id,
        items: vec![
            OrderItem { product_id: first, quantity: 2 },
            OrderItem { product_id: second, quantity: 1 },
        ],
    }
}

#[test]
fn test_event_store_creation() {
    let aggregate_type = "Order";
    let topic = "order-events";

    let store: EventStore<OrderEvent> = EventStore::new(aggregate_type, topic);

    assert_eq!(aggregate_type, "Order");
    assert_eq!(topic, "order-events");
    assert_eq!(store.aggregate_type_name, "Order");
    assert_eq!(store.topic_name, "order-events");
}

#[test]
fn test_event_envelope_construction_for_store() {
    let aggregate_id = new_id();
    let correlation_id = new_id();

    let event = OrderEvent::Created(OrderCreated {
        customer_id: new_id(),
        items: vec![OrderItem { product_id: new_id(), quantity: 2 }],
    });

    let envelope =
        EventEnvelope::new(aggregate_id, 1, "OrderCreated".to_string(), event, correlation_id);

    assert_eq!(envelope.aggregate_id, aggregate_id);
    assert_eq!(envelope.sequence_number, 1);
    assert_eq!(envelope.event_type, "OrderCreated");
    assert_eq!(envelope.correlation_id, correlation_id);
}

#[test]
fn test_multiple_events_batch_preparation() {
    let aggregate_id = new_id();
    let correlation_id = new_id();

    let events = vec![
        EventEnvelope::new(
            aggregate_id,
            1,
            "OrderCreated".to_string(),
            OrderEvent::Created(OrderCreated { customer_id: new_id(), items: vec![] }),
            correlation_id,
        ),
        EventEnvelope::new(
            aggregate_id,
            2,
            "OrderConfirmed".to_string(),
            OrderEvent::Confirmed(OrderConfirmed { confirmed_at: now() }),
            correlation_id,
        ),
    ];

    assert_eq!(events.len(), 2);
    assert_eq!(events[0].sequence_number, 1);
    assert_eq!(events[1].sequence_number, 2);

    // Every event can be serialized, and the store does so for its rows.
    for event_envelope in &events {
        let serialized = serialize(&event_envelope.event_data).unwrap();
        assert!(!serialized.is_empty());
    }
    let batch = order_store().append_events(aggregate_id, 0, 0, events, true, serialize).unwrap();
    assert_eq!(batch.events.len(), 2);
    assert!(batch.events.iter().all(|row| !row.event_data.is_empty()));
}

#[test]
fn test_version_tracking_logic() {
    let expected_version = 5i64;
    let event_count = 3;

    let mut new_version = expected_version;
    for _ in 0..event_count {
        new_version += 1;
    }

    assert_eq!(new_version, 8);

    // The store counts the same way.
    let aggregate_id = new_id();
    let events: Vec<EventEnvelope<OrderEvent>> = (0..event_count)
        .map(|_| {
            EventEnvelope::new(
                aggregate_id,
                0,
                "OrderConfirmed".to_string(),
                OrderEvent::Confirmed(OrderConfirmed { confirmed_at: now() }),
                new_id(),
            )
        })
        .collect();
    let batch = order_store()
        .append_events(aggregate_id, expected_version, 5, events, false, serialize)
        .unwrap();
    assert_eq!(batch.new_version(), 8);
    assert_eq!(
        batch.events.iter().map(|row| row.sequence_number).collect::<Vec<_>>(),
        vec![6, 7, 8]
    );
}

#[test]
fn test_aggregate_type_and_topic_naming() {
    let order_type = "Order";
    let order_topic = "order-events";

    let customer_type = "Customer";
    let customer_topic = "customer-events";

    assert_eq!(order_type, "Order");
    assert_eq!(order_topic, "order-events");
    assert_eq!(customer_type, "Customer");
    assert_eq!(customer_topic, "customer-events");

    let store: EventStore<event_outbox::domain::customer::CustomerEvent> =
        EventStore::new(customer_type, customer_topic);
    assert_eq!(store.aggregate_type_name, "Customer");
    assert_eq!(store.topic_name, "customer-events");
}

#[test]
fn happy_path_create_order_on_an_empty_store() {
    let mut database = Database::new();
    let handler = OrderCommandHandler::new(order_store());
    let (order_id, customer_id) = (new_id(), new_id());

    let version = submit(&mut database, &handler, order_id, create_order(order_id, customer_id, new_id(), new_id())).unwrap();

    assert_eq!(version, 1);
    assert_eq!(handler.event_store.get_current_version(database.sequence_row(order_id)), 1);
    assert_eq!(database.events.len(), 1);
    assert_eq!(database.outbox.len(), 1);
    let row = &database.events[0];
    assert_eq!(row.event_type, "OrderCreated");
    assert_eq!(row.aggregate_id, order_id);
    assert_eq!(row.sequence_number, 1);
    assert_eq!(row.event_version, 1);
    let announcement = &database.outbox[0];
    assert_eq!(announcement.event_type, "OrderCreated");
    assert_eq!(announcement.partition_key, Uuid::from_u128(order_id).to_string());
    assert_eq!(announcement.topic, "order-events");
    assert_eq!(announcement.aggregate_type, "Order");
    assert_eq!(announcement.aggregate_id, order_id);
    assert_eq!(announcement.event_id, row.event_id);
    assert_eq!(announcement.payload, row.event_data);
    assert_eq!(announcement.attempts, 0);
    assert_eq!(announcement.correlation_id, row.correlation_id);
    assert_ne!(announcement.id, row.event_id);
}

#[test]
fn shipping_an_order_that_is_only_created_writes_nothing() {
    let mut database = Database::new();
    let handler = OrderCommandHandler::new(order_store());
    let order_id = new_id();
    submit(&mut database, &handler, order_id, create_order(order_id, new_id(), new_id(), new_id())).unwrap();

    let store = &handler.event_store;
    let current_version = store.get_current_version(database.sequence_row(order_id));
    let history = store.load_events(database.rows_of(order_id), deserialize).unwrap();
    let result = handler.handle(
        order_id,
        OrderCommand::ShipOrder { tracking_number: "T".to_string(), carrier: "C".to_string() },
        new_id(),
        current_version,
        history,
        serialize,
    );

    assert!(matches!(result, Err(CommandError::Rejected(OrderError::NotConfirmed))));
    assert_eq!(database.events.len(), 1);
    assert_eq!(database.outbox.len(), 1);
    assert_eq!(store.get_current_version(database.sequence_row(order_id)), 1);
}

#[test]
fn of_two_writers_on_the_same_version_one_wins() {
    let mut database = Database::new();
    let handler = OrderCommandHandler::new(order_store());
    let order_id = new_id();
    submit(&mut database, &handler, order_id, create_order(order_id, new_id(), new_id(), new_id())).unwrap();

    // Both read the order at version 1 before either writes.
    let store = &handler.event_store;
    let read = |database: &Database| {
        (
            store.get_current_version(database.sequence_row(order_id)),
            store.load_events(database.rows_of(order_id), deserialize).unwrap(),
        )
    };
    let (version_a, history_a) = read(&database);
    let (version_b, history_b) = read(&database);
    assert_eq!((version_a, version_b), (1, 1));
    let batch_a = handler
        .handle(order_id, OrderCommand::ConfirmOrder, new_id(), version_a, history_a, serialize)
        .unwrap();
    let batch_b = handler
        .handle(order_id, OrderCommand::ConfirmOrder, new_id(), version_b, history_b, serialize)
        .unwrap();

    let outcome_a = database.write(&batch_a);
    let outcome_b = database.write(&batch_b);
    let result_a = store.complete_append(&batch_a, outcome_a);
    let result_b = store.complete_append(&batch_b, outcome_b);

    assert!(matches!(result_a, Ok(2)));
    assert!(matches!(
        result_b,
        Err(StoreError::ConcurrencyConflict { expected: 1, actual: 2 })
    ));
    assert_eq!(store.get_current_version(database.sequence_row(order_id)), 2);
    assert_eq!(database.events.iter().filter(|r| r.event_type == "OrderConfirmed").count(), 1);
    assert_eq!(database.outbox.len(), 2);
}

#[test]
fn an_aggregate_with_n_events_is_at_version_n_and_numbered_one_to_n() {
    let mut database = Database::new();
    let handler = OrderCommandHandler::new(order_store());
    let (first, second) = (new_id(), new_id());
    submit(&mut database, &handler, first, create_order(first, 1, 2, 3)).unwrap();
    submit(&mut database, &handler, second, create_order(second, 1, 2, 3)).unwrap();
    assert_eq!(submit(&mut database, &handler, first, OrderCommand::ConfirmOrder), Ok(2));

    let store = &handler.event_store;
    for (aggregate_id, n) in [(first, 2i64), (second, 1), (new_id(), 0)] {
        assert_eq!(store.get_current_version(database.sequence_row(aggregate_id)), n);
        assert_eq!(store.aggregate_exists(n), n > 0);
        let loaded = store.load_events(database.rows_of(aggregate_id), deserialize).unwrap();
        assert_eq!(
            loaded.iter().map(|e| e.sequence_number).collect::<Vec<_>>(),
            (1..=n).collect::<Vec<_>>()
        );
        assert!(loaded.iter().all(|e| e.aggregate_id == aggregate_id));
    }
    let order: OrderAggregate = store
        .load_aggregate(first, store.load_events(database.rows_of(first), deserialize).unwrap())
        .unwrap();
    assert_eq!(order.status, OrderStatus::Confirmed);
    assert_eq!(order.version, 2);
    assert_eq!(order.items, vec![OrderItem { product_id: 2, quantity: 2 }, OrderItem { product_id: 3, quantity: 1 }]);
}

#[test]
fn every_published_event_has_exactly_one_outbox_row() {
    let store = order_store();
    let aggregate_id = new_id();
    let envelopes = |n: usize| -> Vec<EventEnvelope<OrderEvent>> {
        (0..n)
            .map(|_| {
                EventEnvelope::new(
                    aggregate_id,
                    99,
                    "OrderConfirmed".to_string(),
                    OrderEvent::Confirmed(OrderConfirmed { confirmed_at: now() }),
                    new_id(),
                )
            })
            .collect()
    };
    let mut database = Database::new();

    let published = store.append_events(aggregate_id, 0, 0, envelopes(3), true, serialize).unwrap();
    assert!(matches!(database.write(&published), BatchOutcome::Applied));
    let silent = store.append_events(aggregate_id, 3, 3, envelopes(2), false, serialize).unwrap();
    assert!(silent.outbox.is_empty());
    assert!(matches!(database.write(&silent), BatchOutcome::Applied));

    assert_eq!(database.events.len(), 5);
    for row in &database.events {
        let rows_for = database.outbox.iter().filter(|o| o.event_id == row.event_id).count();
        let was_published = row.sequence_number <= 3;
        assert_eq!(rows_for, if was_published { 1 } else { 0 });
    }
    // The store numbers the events, whatever the envelopes say.
    assert_eq!(
        database.events.iter().map(|r| r.sequence_number).collect::<Vec<_>>(),
        vec![1, 2, 3, 4, 5]
    );
}

#[test]
fn an_append_on_another_version_fails_and_prepares_nothing() {
    let store = order_store();
    let aggregate_id = new_id();
    let envelope = || {
        vec![EventEnvelope::new(
            aggregate_id,
            1,
            "OrderConfirmed".to_string(),
            OrderEvent::Confirmed(OrderConfirmed { confirmed_at: now() }),
            new_id(),
        )]
    };
    for (expected, current) in [(0i64, 1i64), (1, 0), (5, 4), (-1, 0)] {
        let result = store.append_events(aggregate_id, expected, current, envelope(), true, serialize);
        match result {
            Err(StoreError::ConcurrencyConflict { expected: e, actual: a }) => {
                assert_eq!((e, a), (expected, current));
            }
            other => panic!("unexpected {:?}", other),
        }
    }
    // A batch that was prepared in time but comes late is not written either.
    let mut database = Database::new();
    let late = store.append_events(aggregate_id, 0, 0, envelope(), true, serialize).unwrap();
    let first = store.append_events(aggregate_id, 0, 0, envelope(), true, serialize).unwrap();
    assert!(matches!(database.write(&first), BatchOutcome::Applied));
    assert!(matches!(database.write(&late), BatchOutcome::Collision { current: 1 }));
    assert_eq!(database.events.len(), 1);
    assert_eq!(database.outbox.len(), 1);
    assert_eq!(database.sequence_row(aggregate_id), Some(1));
}

#[test]
fn an_empty_append_is_refused_before_the_version_is_looked_at() {
    let store = order_store();
    assert!(matches!(
        store.append_events(1, 0, 7, vec![], true, serialize),
        Err(StoreError::EmptyEvents)
    ));
}

#[test]
fn an_event_that_cannot_be_serialized_fails_the_append() {
    let store = order_store();
    let envelopes = vec![EventEnvelope::new(
        1,
        1,
        "OrderConfirmed".to_string(),
        OrderEvent::Confirmed(OrderConfirmed { confirmed_at: now() }),
        2,
    )];
    let result =
        store.append_events(1, 0, 0, envelopes, true, |_: &OrderEvent| Err("no".to_string()));
    assert!(matches!(result, Err(StoreError::Serialization(reason)) if reason == "no"));
}

#[test]
fn store_error_messages_are_exact() {
    assert_eq!(StoreError::EmptyEvents.to_string(), "Cannot append empty event list");
    assert_eq!(
        StoreError::ConcurrencyConflict { expected: 1, actual: 20 }.to_string(),
        "Concurrency conflict: expected version 1, but current is 20"
    );
    assert_eq!(
        StoreError::ConcurrencyConflict { expected: -3, actual: 0 }.to_string(),
        "Concurrency conflict: expected version -3, but current is 0"
    );
    assert_eq!(StoreError::Serialization("a".to_string()).to_string(), "Serialization failed: a");
    assert_eq!(
        StoreError::Deserialization("b".to_string()).to_string(),
        "Deserialization failed: b"
    );
    assert_eq!(StoreError::Storage("c".to_string()).to_string(), "Storage failed: c");
}

#[test]
fn the_answer_of_the_database_decides_what_the_append_returns() {
    let store = order_store();
    let envelopes = vec![EventEnvelope::new(
        1,
        1,
        "OrderConfirmed".to_string(),
        OrderEvent::Confirmed(OrderConfirmed { confirmed_at: now() }),
        2,
    )];
    let batch = store.append_events(1, 4, 4, envelopes, true, serialize).unwrap();
    assert!(matches!(store.complete_append(&batch, BatchOutcome::Applied), Ok(5)));
    assert!(matches!(
        store.complete_append(&batch, BatchOutcome::Collision { current: 6 }),
        Err(StoreError::ConcurrencyConflict { expected: 4, actual: 6 })
    ));
    assert!(matches!(
        store.complete_append(&batch, BatchOutcome::Failed("down".to_string())),
        Err(StoreError::Storage(reason)) if reason == "down"
    ));
}

#[test]
fn rows_come_back_as_envelopes_in_order() {
    let store = order_store();
    let rows = vec![
        StoredEvent {
            aggregate_id: 1,
            sequence_number: 1,
            event_id: 11,
            event_type: "OrderCreated".to_string(),
            event_version: 1,
            event_data: serialize(&OrderEvent::Created(OrderCreated {
                customer_id: 5,
                items: vec![OrderItem { product_id: 6, quantity: 7 }],
            }))
            .unwrap(),
            causation_id: Some(3),
            correlation_id: 4,
            timestamp: Timestamp { millis: 1000 },
        },
        StoredEvent {
            aggregate_id: 1,
            sequence_number: 2,
            event_id: 12,
            event_type: "OrderConfirmed".to_string(),
            event_version: 1,
            event_data: serialize(&OrderEvent::Confirmed(OrderConfirmed {
                confirmed_at: Timestamp { millis: 1500 },
            }))
            .unwrap(),
            causation_id: None,
            correlation_id: 4,
            timestamp: Timestamp { millis: 2000 },
        },
    ];
    let envelopes = store.load_events(rows, deserialize).unwrap();
    assert_eq!(envelopes.len(), 2);
    assert_eq!(envelopes[0].event_id, 11);
    assert_eq!(envelopes[0].causation_id, Some(3));
    assert_eq!(envelopes[0].timestamp, Timestamp { millis: 1000 });
    assert_eq!(envelopes[0].user_id, None);
    assert!(envelopes[0].metadata.is_empty());
    assert!(matches!(
        &envelopes[0].event_data,
        OrderEvent::Created(e) if e.customer_id == 5 && e.items[0].quantity == 7
    ));
    assert_eq!(envelopes[1].sequence_number, 2);
    assert_eq!(envelopes[1].event_type, "OrderConfirmed");
    assert!(matches!(
        &envelopes[1].event_data,
        OrderEvent::Confirmed(e) if e.confirmed_at.millis == 1500
    ));
}

#[test]
fn a_row_that_cannot_be_read_fails_the_load() {
    let store = order_store();
    let rows = vec![StoredEvent {
        aggregate_id: 1,
        sequence_number: 1,
        event_id: 11,
        event_type: "Mystery".to_string(),
        event_version: 1,
        event_data: "{}".to_string(),
        causation_id: None,
        correlation_id: 4,
        timestamp: Timestamp { millis: 1 },
    }];
    assert!(matches!(
        store.load_events(rows, deserialize),
        Err(StoreError::Deserialization(reason)) if reason == "unknown event: {}"
    ));
    assert!(store.load_events(vec![], deserialize).unwrap().is_empty());
}

#[test]
fn the_version_of_an_aggregate_without_a_row_is_zero() {
    let store = order_store();
    assert_eq!(store.get_current_version(None), 0);
    assert_eq!(store.get_current_version(Some(12)), 12);
    assert!(!store.aggregate_exists(0));
    assert!(!store.aggregate_exists(-1));
    assert!(store.aggregate_exists(1));
}

#[test]
fn an_aggregate_without_events_is_not_found() {
    let store = order_store();
    let result: Result<OrderAggregate, _> = store.load_aggregate(42, vec![]);
    assert!(matches!(result, Err(AggregateLoadError::NotFound(42))));
    let envelopes = vec![EventEnvelope::new(
        42,
        1,
        "OrderConfirmed".to_string(),
        OrderEvent::Confirmed(OrderConfirmed { confirmed_at: now() }),
        2,
    )];
    let result: Result<OrderAggregate, _> = store.load_aggregate(42, envelopes);
    assert!(matches!(
        result,
        Err(AggregateLoadError::Invalid(LoadError::FirstEvent(OrderError::NotInitialized)))
    ));
}

#[test]
fn a_command_for_an_order_that_does_not_exist_is_refused_unless_it_creates_it() {
    let handler = OrderCommandHandler::new(order_store());
    let result = handler.handle(9, OrderCommand::ConfirmOrder, 1, 0, vec![], serialize);
    assert!(matches!(result, Err(CommandError::AggregateNotFound(9))));

    let result = handler.handle(
        9,
        OrderCommand::CreateOrder { order_id: 9, customer_id: 1, items: vec![] },
        1,
        0,
        vec![],
        serialize,
    );
    assert!(matches!(result, Err(CommandError::Rejected(OrderError::EmptyItems))));
}

#[test]
fn the_handler_wraps_the_event_with_the_correlation_id() {
    let handler = OrderCommandHandler::new(order_store());
    let batch = handler.handle(9, create_order(9, 8, 7, 6), 55, 0, vec![], serialize).unwrap();
    assert_eq!(batch.aggregate_id, 9);
    assert_eq!(batch.expected_version, 0);
    assert_eq!(batch.events.len(), 1);
    assert_eq!(batch.events[0].correlation_id, 55);
    assert_eq!(batch.events[0].causation_id, None);
    assert_eq!(batch.events[0].event_data, serialize(&OrderEvent::Created(OrderCreated {
        customer_id: 8,
        items: vec![OrderItem { product_id: 7, quantity: 2 }, OrderItem { product_id: 6, quantity: 1 }],
    })).unwrap());
    assert_eq!(batch.sequence.aggregate_id, 9);
    assert_eq!(batch.sequence.current_sequence, 1);
    assert_eq!(batch.outbox[0].partition_key, "00000000-0000-0000-0000-000000000009");
}

#[test]
fn the_handler_sees_a_version_that_moved_since_the_events_were_read() {
    let handler = OrderCommandHandler::new(order_store());
    let history = vec![EventEnvelope::new(
        9,
        1,
        "OrderCreated".to_string(),
        OrderEvent::Created(OrderCreated {
            customer_id: 8,
            items: vec![OrderItem { product_id: 7, quantity: 2 }],
        }),
        1,
    )];
    let result = handler.handle(9, OrderCommand::ConfirmOrder, 1, 2, history, serialize);
    assert!(matches!(
        result,
        Err(CommandError::Store(StoreError::ConcurrencyConflict { expected: 1, actual: 2 }))
    ));
}

#[test]
fn a_history_that_does_not_fold_fails_the_command() {
    let handler = OrderCommandHandler::new(order_store());
    let history = vec![EventEnvelope::new(
        9,
        1,
        "OrderConfirmed".to_string(),
        OrderEvent::Confirmed(OrderConfirmed { confirmed_at: now() }),
        1,
    )];
    let result = handler.handle(9, OrderCommand::ConfirmOrder, 1, 1, history, serialize);
    assert!(matches!(
        result,
        Err(CommandError::Load(AggregateLoadError::Invalid(LoadError::FirstEvent(
            OrderError::NotInitialized
        ))))
    ));
    let result = handler.handle(9, OrderCommand::ConfirmOrder, 1, 1, vec![], serialize);
    assert!(matches!(result, Err(CommandError::Load(AggregateLoadError::NotFound(9)))));
}

#[test]
fn an_order_event_that_cannot_be_serialized_fails_the_command() {
    let handler = OrderCommandHandler::new(order_store());
    let result = handler.handle(
        9,
        OrderCommand::CreateOrder {
            order_id: 9,
            customer_id: 1,
            items: vec![OrderItem { product_id: 3, quantity: 2 }],
        },
        1,
        0,
        vec![],
        |_: &OrderEvent| Err("no".to_string()),
    );
    assert!(matches!(
        result,
        Err(CommandError::Store(StoreError::Serialization(reason))) if reason == "no"
    ));
}
