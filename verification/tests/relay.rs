use event_outbox::actors::cdc_processor_polling::{
    CdcProcessor, OutboxMessage, Polled, CONSUMER_ID, MAX_REMEMBERED_IDS, POLL_INTERVAL_SECS,
};
use event_outbox::actors::infrastructure::cdc_processor::{KEYSPACE, TABLE};
use event_outbox::actors::infrastructure::{
    CdcRow, Delivery, DlqActor, ExtractError, OperationType, OutboxCDCConsumer,
};
use event_outbox::domain::order::{OrderCommand, OrderCommandHandler, OrderEvent, OrderItem};
use event_outbox::event_sourcing::EventStore;
use event_outbox::messaging::{PublishError, RedpandaClient};
use event_outbox::metrics::Metrics;
use event_outbox::platform::Timestamp;
use event_outbox::utils::CircuitState;
use std::cell::{Cell, RefCell};
use uuid::Uuid;

fn insert_row(id: u128) -> CdcRow {
    CdcRow {
        operation: OperationType::RowInsert,
        id: Some(id),
        aggregate_id: Some(77),
        event_type: Some("OrderCreated".to_string()),
        payload: Some("{\"type\":\"Created\"}".to_string()),
    }
}

/// The change-log row of the outbox row that creating an order writes.
fn outbox_insert_of_a_new_order(order_id: u128) -> (CdcRow, u128, String) {
    let handler = OrderCommandHandler::new(EventStore::new("Order", "order-events"));
    let command = OrderCommand::CreateOrder {
        order_id,
        customer_id: 2,
        items: vec![OrderItem { product_id: 3, quantity: 2 }, OrderItem { product_id: 4, quantity: 1 }],
    };
    let batch = handler
        .handle(order_id, command, 5, 0, vec![], |e: &OrderEvent| Ok(format!("{:?}", e)))
        .unwrap();
    let row = &batch.outbox[0];
    (
        CdcRow {
            operation: OperationType::RowInsert,
            id: Some(row.id),
            aggregate_id: Some(row.aggregate_id),
            event_type: Some(row.event_type.clone()),
            payload: Some(row.payload.clone()),
        },
        row.id,
        row.payload.clone(),
    )
}

#[test]
fn the_relay_publishes_what_the_outbox_holds() {
    let (row, outbox_id, stored_payload) = outbox_insert_of_a_new_order(1);
    let records = RefCell::new(Vec::new());
    let delivery = OutboxCDCConsumer::new().consume_cdc(
        row,
        |_attempt: u32, topic: &String, key: &String, payload: &String| {
            records.borrow_mut().push((topic.clone(), key.clone(), payload.clone()));
            Ok(())
        },
        |_| panic!("no pause is due"),
    );
    assert!(matches!(&delivery, Delivery::Published(event) if event.id == outbox_id));
    // The relay publishes under the event's type.
    assert_eq!(
        *records.borrow(),
        vec![("OrderCreated".to_string(), Uuid::from_u128(outbox_id).to_string(), stored_payload)]
    );
}

#[test]
fn with_the_broker_down_the_event_ends_in_the_dead_letter_queue() {
    let (row, outbox_id, stored_payload) = outbox_insert_of_a_new_order(1);
    let attempts = Cell::new(0);
    let pauses = RefCell::new(Vec::new());
    let delivery = OutboxCDCConsumer::new().consume_cdc(
        row,
        |attempt: u32, _: &String, _: &String, _: &String| {
            attempts.set(attempts.get() + 1);
            assert_eq!(attempt, attempts.get());
            Err(PublishError::Transient("Kafka send error: broker down".to_string()))
        },
        |delay| pauses.borrow_mut().push(delay),
    );
    assert_eq!(attempts.get(), 5);
    assert_eq!(*pauses.borrow(), vec![50, 100, 200, 400]);
    let letter = match delivery {
        Delivery::DeadLettered(letter) => letter,
        other => panic!("unexpected {:?}", other),
    };
    assert_eq!(letter.id, outbox_id);
    assert_eq!(letter.event_type, "OrderCreated");
    assert_eq!(letter.failure_count, 5);
    assert!(!letter.error_message.is_empty());
    assert_eq!(letter.error_message, "Kafka send error: broker down");
    assert_eq!(letter.payload, stored_payload);
    assert_eq!(letter.aggregate_id, 1);

    let row = DlqActor::new().add(letter);
    assert_eq!(row.message.id, outbox_id);
    assert_eq!(row.message.failure_count, 5);
    assert_eq!(row.message.last_failed_at, row.created_at);
    assert!(row.message.first_failed_at.millis <= row.message.last_failed_at.millis);

    let mut metrics = Metrics::new().unwrap();
    metrics.record_dlq_message(&row.message.event_type);
    let gathered = metrics.registry().gather();
    let total = gathered.iter().find(|m| m.name() == "dlq_messages_total").unwrap();
    assert_eq!(total.metric[0].counter.value, Some(1.0));
}

#[test]
fn every_insert_is_published_or_dead_lettered_under_its_id() {
    for failures_before_success in 0..8u32 {
        let calls = Cell::new(0);
        let delivery = OutboxCDCConsumer::new().consume_cdc(
            insert_row(900 + failures_before_success as u128),
            |_: u32, _: &String, _: &String, _: &String| {
                calls.set(calls.get() + 1);
                if calls.get() > failures_before_success {
                    Ok(())
                } else {
                    Err(PublishError::Transient("t".to_string()))
                }
            },
            |_| {},
        );
        match delivery {
            Delivery::Published(event) => {
                assert!(failures_before_success < 5);
                assert_eq!(event.id, 900 + failures_before_success as u128);
            }
            Delivery::DeadLettered(letter) => {
                assert!(failures_before_success >= 5);
                assert_eq!(letter.id, 900 + failures_before_success as u128);
                assert_eq!(calls.get(), 5);
            }
            other => panic!("unexpected {:?}", other),
        }
    }
}

fn counter(metrics: &Metrics, name: &str) -> Vec<(Vec<String>, f64)> {
    let gathered = metrics.registry().gather();
    let mut values: Vec<(Vec<String>, f64)> = gathered
        .iter()
        .filter(|family| family.name() == name)
        .flat_map(|family| family.metric.iter())
        .map(|m| {
            (m.label.iter().map(|l| l.value().to_string()).collect(), m.counter.value.unwrap())
        })
        .collect();
    values.sort_by(|a, b| a.0.cmp(&b.0));
    values
}

#[test]
fn what_became_of_a_row_is_counted() {
    let consumer = OutboxCDCConsumer::new();
    let mut metrics = Metrics::new().unwrap();
    let fail = |_: u32, _: &String, _: &String, _: &String| {
        Err(PublishError::Transient("down".to_string()))
    };
    let succeed = |_: u32, _: &String, _: &String, _: &String| Ok(());

    let published = consumer.consume_cdc(insert_row(1), succeed, |_| {});
    consumer.record_delivery(&mut metrics, &published, 1_500);
    let dead = consumer.consume_cdc(insert_row(2), fail, |_| {});
    consumer.record_delivery(&mut metrics, &dead, 2_000_000);
    let dead = consumer.consume_cdc(insert_row(3), fail, |_| {});
    consumer.record_delivery(&mut metrics, &dead, 2_000_000);
    let skipped = consumer.consume_cdc(CdcRow { id: None, ..insert_row(4) }, succeed, |_| {});
    consumer.record_delivery(&mut metrics, &skipped, 10);
    let ignored = consumer.consume_cdc(
        CdcRow { operation: OperationType::RowDelete, ..insert_row(5) },
        succeed,
        |_| {},
    );
    consumer.record_delivery(&mut metrics, &ignored, 10);

    let by = |labels: &[&str], value: f64| {
        (labels.iter().map(|l| l.to_string()).collect::<Vec<String>>(), value)
    };
    assert_eq!(counter(&metrics, "cdc_events_processed_total"), vec![by(&["OrderCreated"], 1.0)]);
    assert_eq!(
        counter(&metrics, "cdc_events_failed_total"),
        vec![
            by(&["OrderCreated", "processing_error"], 2.0),
            by(&["unknown", "processing_error"], 1.0),
        ]
    );
    assert_eq!(counter(&metrics, "retry_success_total"), vec![by(&["redpanda_publish"], 1.0)]);
    assert_eq!(counter(&metrics, "retry_failure_total"), vec![by(&["redpanda_publish"], 2.0)]);
    assert_eq!(counter(&metrics, "dlq_messages_total"), vec![by(&[], 2.0)]);
    assert_eq!(counter(&metrics, "dlq_messages_by_event_type"), vec![by(&["OrderCreated"], 2.0)]);
}

#[test]
fn an_open_circuit_is_not_retried() {
    let calls = Cell::new(0);
    let delivery = OutboxCDCConsumer::new().consume_cdc(
        insert_row(1),
        |_: u32, _: &String, _: &String, _: &String| {
            calls.set(calls.get() + 1);
            Err(PublishError::Unavailable)
        },
        |_| panic!("no pause is due"),
    );
    assert_eq!(calls.get(), 1);
    match delivery {
        Delivery::DeadLettered(letter) => {
            assert_eq!(letter.error_message, "Circuit breaker open for Redpanda");
            assert_eq!(letter.failure_count, 5);
        }
        other => panic!("unexpected {:?}", other),
    }
}

#[test]
fn only_inserts_are_relayed() {
    let consumer = OutboxCDCConsumer::new();
    for operation in [
        OperationType::PreImage,
        OperationType::RowUpdate,
        OperationType::RowDelete,
        OperationType::PartitionDelete,
        OperationType::RowRangeDelInclLeft,
        OperationType::RowRangeDelExclLeft,
        OperationType::RowRangeDelInclRight,
        OperationType::RowRangeDelExclRight,
    ] {
        let row = CdcRow { operation, ..insert_row(1) };
        assert!(matches!(consumer.extract_event_from_cdc_row(&row), Ok(None)));
        let delivery = consumer.consume_cdc(
            row,
            |_: u32, _: &String, _: &String, _: &String| panic!("nothing to publish"),
            |_| {},
        );
        assert!(matches!(delivery, Delivery::Ignored));
    }
    let row = CdcRow { operation: OperationType::PostImage, ..insert_row(6) };
    let event = consumer.extract_event_from_cdc_row(&row).unwrap().unwrap();
    assert_eq!(event.id, 6);
    assert_eq!(event.aggregate_id, 77);
    assert_eq!(event.event_type, "OrderCreated");
    assert_eq!(event.payload, "{\"type\":\"Created\"}");
}

#[test]
fn a_row_that_lacks_a_column_is_passed_over() {
    let consumer = OutboxCDCConsumer::new();
    let cases = [
        (CdcRow { id: None, aggregate_id: None, ..insert_row(1) }, ExtractError::MissingId),
        (
            CdcRow { aggregate_id: None, event_type: None, ..insert_row(1) },
            ExtractError::MissingAggregateId,
        ),
        (
            CdcRow { event_type: None, payload: None, ..insert_row(1) },
            ExtractError::MissingEventType,
        ),
        (CdcRow { payload: None, ..insert_row(1) }, ExtractError::MissingPayload),
    ];
    for (row, error) in cases {
        assert_eq!(consumer.extract_event_from_cdc_row(&row).unwrap_err(), error);
        let delivery = consumer.consume_cdc(
            row,
            |_: u32, _: &String, _: &String, _: &String| panic!("nothing to publish"),
            |_| {},
        );
        assert!(matches!(delivery, Delivery::Skipped(e) if e == error));
    }
    assert_eq!(ExtractError::MissingId.to_string(), "Missing or invalid id");
    assert_eq!(ExtractError::MissingAggregateId.to_string(), "Missing or invalid aggregate_id");
    assert_eq!(ExtractError::MissingEventType.to_string(), "Missing or invalid event_type");
    assert_eq!(ExtractError::MissingPayload.to_string(), "Missing or invalid payload");
    assert_eq!((KEYSPACE, TABLE), ("orders_ks", "outbox_messages"));
}

#[test]
fn the_broker_client_goes_through_its_circuit_breaker() {
    let mut client = RedpandaClient::new("127.0.0.1:9092");
    assert_eq!(
        client.producer_settings(),
        vec![
            ("bootstrap.servers".to_string(), "127.0.0.1:9092".to_string()),
            ("message.timeout.ms".to_string(), "5000".to_string()),
        ]
    );
    assert_eq!(event_outbox::messaging::redpanda::SEND_TIMEOUT_MS, 5_000);

    let sent = RefCell::new(Vec::new());
    let result = client.publish(0, "order-events", "k", "p", |topic: &str, key: &str, payload: &str| {
        sent.borrow_mut().push(format!("{} {} {}", topic, key, payload));
        Ok(())
    });
    assert!(result.is_ok());
    assert_eq!(*sent.borrow(), vec!["order-events k p"]);

    // Five failures in a row open the circuit.
    for _ in 0..5 {
        assert_eq!(client.get_circuit_breaker_state(), CircuitState::Closed);
        let result = client.publish(1_000, "t", "k", "p", |_: &str, _: &str, _: &str| {
            Err("Kafka send error: timed out".to_string())
        });
        assert!(matches!(
            result,
            Err(PublishError::Transient(reason)) if reason == "Kafka send error: timed out"
        ));
    }
    assert_eq!(client.get_circuit_breaker_state(), CircuitState::Open);
    let result = client.publish(30_999, "t", "k", "p", |_: &str, _: &str, _: &str| {
        panic!("the broker is not asked")
    });
    assert!(matches!(result, Err(PublishError::Unavailable)));

    // After thirty seconds a probe passes; three successes close the circuit.
    for (now, state_after) in [
        (31_000, CircuitState::HalfOpen),
        (31_001, CircuitState::HalfOpen),
        (31_002, CircuitState::Closed),
    ] {
        assert!(client.publish(now, "t", "k", "p", |_: &str, _: &str, _: &str| Ok(())).is_ok());
        assert_eq!(client.get_circuit_breaker_state(), state_after);
    }

    // The same, with the send made between the two steps.
    assert!(client.can_publish());
    assert!(client.begin_publish(40_000).is_ok());
    assert!(matches!(
        client.finish_publish(40_001, Err("late".to_string())),
        Err(PublishError::Transient(reason)) if reason == "late"
    ));
    assert!(client.begin_publish(40_002).is_ok());
    assert!(client.finish_publish(40_003, Ok(())).is_ok());
    for now in 0..5 {
        let _ = client.finish_publish(50_000 + now, Err("down".to_string()));
    }
    assert!(matches!(client.begin_publish(50_010), Err(PublishError::Unavailable)));
    assert_eq!(client.get_circuit_breaker_state(), CircuitState::Open);

    client.reset_circuit_breaker();
    assert_eq!(client.get_circuit_breaker_state(), CircuitState::Closed);
    assert_eq!(PublishError::Unavailable.to_string(), "Circuit breaker open for Redpanda");
    assert_eq!(PublishError::Transient("x".to_string()).to_string(), "x");
}

fn message(id: u128, created_at: i64) -> OutboxMessage {
    OutboxMessage {
        id,
        aggregate_id: 1,
        event_type: "OrderCreated".to_string(),
        payload: format!("payload-{}", id),
        created_at: Timestamp { millis: created_at },
    }
}

#[test]
fn a_poll_is_relayed_oldest_first() {
    let processor = CdcProcessor::new(None);
    let sorted = processor.fetch_new_messages(vec![
        message(1, 30),
        message(2, 10),
        message(3, 20),
        message(4, 10),
        message(5, 30),
    ]);
    assert_eq!(
        sorted.iter().map(|m| (m.id, m.created_at.millis)).collect::<Vec<_>>(),
        vec![(2, 10), (4, 10), (3, 20), (1, 30), (5, 30)]
    );
    assert!(processor.fetch_new_messages(vec![]).is_empty());
}

#[test]
fn a_poll_passes_over_what_it_remembers_and_retries_what_failed() {
    let mut processor = CdcProcessor::new(Some((Timestamp { millis: 5 }, 1)));
    assert_eq!(processor.last_processed_time, Timestamp { millis: 5 });
    assert!(processor.processed_ids.contains(&1));

    let published = RefCell::new(Vec::new());
    let offsets = RefCell::new(Vec::new());
    let messages = vec![message(1, 5), message(2, 6), message(3, 7), message(2, 6)];
    let outcomes = processor.process_batch(
        &messages,
        |topic: &String, key: &String, payload: &String| {
            if payload == "payload-3" {
                return Err(PublishError::Transient("down".to_string()));
            }
            published.borrow_mut().push((topic.clone(), key.clone(), payload.clone()));
            Ok(())
        },
        |time, id| {
            offsets.borrow_mut().push((time.millis, id));
            true
        },
    );
    assert_eq!(
        outcomes,
        vec![Polled::AlreadyProcessed, Polled::Published, Polled::Failed, Polled::AlreadyProcessed]
    );
    assert_eq!(
        *published.borrow(),
        vec![(
            "OrderCreated".to_string(),
            "00000000-0000-0000-0000-000000000002".to_string(),
            "payload-2".to_string()
        )]
    );
    assert_eq!(*offsets.borrow(), vec![(6, 2)]);
    assert_eq!(processor.last_processed_time, Timestamp { millis: 6 });
    assert!(processor.processed_ids.contains(&2));
    assert!(!processor.processed_ids.contains(&3));

    // The next poll brings the failed row again.
    let outcomes = processor.process_batch(
        &vec![message(3, 7)],
        |_: &String, _: &String, _: &String| Ok(()),
        |_, _| false,
    );
    assert_eq!(outcomes, vec![Polled::Published]);
    assert_eq!(processor.last_processed_time, Timestamp { millis: 7 });
}

#[test]
fn the_memory_of_a_poll_is_emptied_beyond_a_thousand() {
    let mut processor = CdcProcessor::new(None);
    assert!(processor.processed_ids.is_empty());
    let messages: Vec<OutboxMessage> =
        (1..=MAX_REMEMBERED_IDS as u128).map(|id| message(id, id as i64)).collect();
    let publish = |_: &String, _: &String, _: &String| Ok(());
    processor.process_batch(&messages, publish, |_, _| true);
    assert_eq!(processor.processed_ids.len(), 1000);

    processor.process_batch(&vec![message(5000, 5000)], publish, |_, _| true);
    assert_eq!(processor.processed_ids.len(), 0);
    assert_eq!(processor.last_processed_time, Timestamp { millis: 5000 });

    // A row that was published before is published again.
    let outcomes = processor.process_batch(&vec![message(1, 1)], publish, |_, _| true);
    assert_eq!(outcomes, vec![Polled::Published]);
    assert_eq!((CONSUMER_ID, POLL_INTERVAL_SECS), ("outbox-processor-v1", 2));
}

#[test]
fn the_dead_letter_carries_the_error_of_the_last_attempt() {
    let delivery = OutboxCDCConsumer::new().consume_cdc(
        insert_row(21),
        |attempt: u32, _: &String, _: &String, _: &String| {
            Err(PublishError::Transient(format!("failure {}", attempt)))
        },
        |_| {},
    );
    match delivery {
        Delivery::DeadLettered(letter) => {
            assert_eq!(letter.id, 21);
            assert_eq!(letter.error_message, "failure 5");
            assert_eq!(letter.failure_count, 5);
        },
        other => panic!("unexpected {:?}", other),
    }
}

#[test]
fn the_first_answer_that_is_final_decides_what_becomes_of_the_row() {
    let pauses = RefCell::new(Vec::new());
    let delivery = OutboxCDCConsumer::new().consume_cdc(
        insert_row(22),
        |attempt: u32, _: &String, _: &String, _: &String| {
            if attempt < 3 {
                Err(PublishError::Transient(format!("failure {}", attempt)))
            } else if attempt == 3 {
                Ok(())
            } else {
                panic!("no attempt is due after a success")
            }
        },
        |delay| pauses.borrow_mut().push(delay),
    );
    assert!(matches!(&delivery, Delivery::Published(event) if event.id == 22));
    assert_eq!(*pauses.borrow(), vec![50, 100]);

    let delivery = OutboxCDCConsumer::new().consume_cdc(
        insert_row(23),
        |attempt: u32, _: &String, _: &String, _: &String| {
            if attempt == 1 {
                Err(PublishError::Transient("failure 1".to_string()))
            } else if attempt == 2 {
                Err(PublishError::Unavailable)
            } else {
                panic!("no attempt is due after an error that stays")
            }
        },
        |_| {},
    );
    match delivery {
        Delivery::DeadLettered(letter) => {
            assert_eq!(letter.id, 23);
            assert_eq!(letter.error_message, PublishError::Unavailable.to_string());
            assert_eq!(letter.failure_count, 5);
        },
        other => panic!("unexpected {:?}", other),
    }
}

#[test]
fn the_offset_stored_is_that_of_the_row_just_published() {
    let mut relay = CdcProcessor::new(None);
    let messages = vec![
        OutboxMessage {
            id: 31,
            aggregate_id: 1,
            event_type: "OrderCreated".to_string(),
            payload: "a".to_string(),
            created_at: Timestamp { millis: 100 },
        },
        OutboxMessage {
            id: 32,
            aggregate_id: 1,
            event_type: "OrderConfirmed".to_string(),
            payload: "b".to_string(),
            created_at: Timestamp { millis: 200 },
        },
        OutboxMessage {
            id: 33,
            aggregate_id: 1,
            event_type: "OrderShipped".to_string(),
            payload: "c".to_string(),
            created_at: Timestamp { millis: 300 },
        },
    ];
    let offsets = RefCell::new(Vec::new());
    let outcomes = relay.process_batch(
        &messages,
        |_: &String, _: &String, payload: &String| {
            if payload == "b" {
                Err(PublishError::Transient("down".to_string()))
            } else {
                Ok(())
            }
        },
        |time: Timestamp, id: u128| {
            offsets.borrow_mut().push((time.millis, id));
            true
        },
    );
    assert_eq!(outcomes, vec![Polled::Published, Polled::Failed, Polled::Published]);
    assert_eq!(*offsets.borrow(), vec![(100, 31), (300, 33)]);
    assert_eq!(relay.last_processed_time, Timestamp { millis: 300 });
}
