use vstd::prelude::*;

use crate::messaging::redpanda::PublishError;
use crate::metrics::{counter_family_count, incremented, int_counter_value, Metrics};
use crate::platform::{now, uuid_text, uuid_to_string};
use crate::utils::retry::{
    attempt_returned, pauses_made, retry_on_transient, returns_by_attempt,
    run_while_transient_from, IsTransient, RetryConfig, RetryResult,
};

use super::dlq::{stores, AddToDlq, DlqRow};

verus! {

/// The keyspace of the outbox table.
pub const KEYSPACE: &'static str = "orders_ks";

/// The table whose changes are relayed.
pub const TABLE: &'static str = "outbox_messages";

/// The name under which publications to the broker are counted.
pub const PUBLISH_OPERATION: &'static str = "redpanda_publish";

/// The event type under which rows that cannot be read are counted.
pub const UNKNOWN_EVENT_TYPE: &'static str = "unknown";

/// The kind of change that a row of the change log records.
#[derive(Debug, Clone, Copy, PartialEq, Eq, Structural)]
pub enum OperationType {
    PreImage,
    RowUpdate,
    RowInsert,
    RowDelete,
    PartitionDelete,
    RowRangeDelInclLeft,
    RowRangeDelExclLeft,
    RowRangeDelInclRight,
    RowRangeDelExclRight,
    PostImage,
}

/// What the relay reads of a row of the outbox table's change log: the kind
/// of change, and the four columns it needs, each absent where the column
/// is null or not of its type.
#[derive(Debug)]
pub struct CdcRow {
    pub operation: OperationType,
    pub id: Option<u128>,
    pub aggregate_id: Option<u128>,
    pub event_type: Option<String>,
    pub payload: Option<String>,
}

/// An outbox row that is to be published.
#[derive(Debug)]
pub struct OutboxEvent {
    pub id: u128,
    pub aggregate_id: u128,
    pub event_type: String,
    pub payload: String,
}

/// The column that an inserted row lacks.
#[derive(Debug, Clone, Copy, PartialEq, Eq, Structural)]
pub enum ExtractError {
    MissingId,
    MissingAggregateId,
    MissingEventType,
    MissingPayload,
}

impl ExtractError {
    /// The message shown for this error.
    pub open spec fn message(&self) -> Seq<char> {
        match self {
            ExtractError::MissingId => "Missing or invalid id"@,
            ExtractError::MissingAggregateId => "Missing or invalid aggregate_id"@,
            ExtractError::MissingEventType => "Missing or invalid event_type"@,
            ExtractError::MissingPayload => "Missing or invalid payload"@,
        }
    }

    pub fn to_string(&self) -> (r: String)
        ensures
            r@ == self.message(),
    {
        match self {
            ExtractError::MissingId => "Missing or invalid id".to_owned(),
            ExtractError::MissingAggregateId => "Missing or invalid aggregate_id".to_owned(),
            ExtractError::MissingEventType => "Missing or invalid event_type".to_owned(),
            ExtractError::MissingPayload => "Missing or invalid payload".to_owned(),
        }
    }
}

/// What became of a row of the change log.
#[derive(Debug)]
pub enum Delivery {
    /// The row records no insert: there is nothing to publish.
    Ignored,
    /// The row records an insert that cannot be read: it is passed over.
    Skipped(ExtractError),
    /// The broker has the record of this outbox row.
    Published(OutboxEvent),
    /// The broker does not have the record: this goes to the dead-letter
    /// queue.
    DeadLettered(AddToDlq),
}

/// Whether a change of this kind brings a new outbox row.
pub open spec fn is_insert(operation: OperationType) -> bool {
    operation == OperationType::RowInsert || operation == OperationType::PostImage
}

/// The outbox row that `row` brings: none for a change that is no insert,
/// and otherwise the four columns, of which the first that is missing, in
/// the order id, aggregate id, event type, payload, is an error.
pub open spec fn extracted(row: &CdcRow) -> Result<Option<OutboxEvent>, ExtractError> {
    if !is_insert(row.operation) {
        Ok(None)
    } else if row.id is None {
        Err(ExtractError::MissingId)
    } else if row.aggregate_id is None {
        Err(ExtractError::MissingAggregateId)
    } else if row.event_type is None {
        Err(ExtractError::MissingEventType)
    } else if row.payload is None {
        Err(ExtractError::MissingPayload)
    } else {
        Ok(
            Some(
                OutboxEvent {
                    id: row.id->0,
                    aggregate_id: row.aggregate_id->0,
                    event_type: row.event_type->0,
                    payload: row.payload->0,
                },
            ),
        )
    }
}

/// Whether `publish` accepts the record given at attempt `attempt`.
pub open spec fn accepts<F: Fn(u32, &String, &String, &String) -> Result<(), PublishError>>(
    publish: &F,
    attempt: u32,
    topic: &String,
    key: &String,
    payload: &String,
) -> bool {
    call_requires(*publish, (attempt, topic, key, payload))
}

/// Whether `publish` can have answered `outcome` for the record given, at
/// attempt `attempt`.
pub open spec fn answered<F: Fn(u32, &String, &String, &String) -> Result<(), PublishError>>(
    publish: &F,
    attempt: u32,
    topic: &String,
    key: &String,
    payload: &String,
    outcome: Result<(), PublishError>,
) -> bool {
    call_ensures(*publish, (attempt, topic, key, payload), outcome)
}

/// Whether `publish` can have answered `outcome` for the record of
/// `event` at attempt `attempt`: the event's type as topic, the row's
/// identifier as text as key, and the payload as it is stored.
pub open spec fn record_sent_at<F: Fn(u32, &String, &String, &String) -> Result<(), PublishError>>(
    publish: F,
    event: OutboxEvent,
    attempt: u32,
    outcome: Result<(), PublishError>,
) -> bool {
    exists|key: String| #[trigger]
        call_ensures(publish, (attempt, &event.event_type, &key, &event.payload), outcome) && key@
            == uuid_text(event.id)
}

/// Whether `publish` can have answered `outcome` for the record of
/// `event`, at one of the attempts from 1 to the last, after every pause
/// that is due before that attempt.
pub open spec fn record_sent<
    F: Fn(u32, &String, &String, &String) -> Result<(), PublishError>,
    P: Fn(u64),
>(
    publish: F,
    pause: P,
    config: RetryConfig,
    event: OutboxEvent,
    outcome: Result<(), PublishError>,
) -> bool {
    exists|attempt: u32|
        1 <= attempt && attempt <= config.last_attempt() && #[trigger] record_sent_at(
            publish,
            event,
            attempt,
            outcome,
        ) && pauses_made(pause, config, attempt)
}

/// Whether `publish` accepts the record of `event` at every attempt from 1
/// to `last`.
pub open spec fn takes_record<F: Fn(u32, &String, &String, &String) -> Result<(), PublishError>>(
    publish: F,
    event: OutboxEvent,
    last: u32,
) -> bool {
    forall|attempt: u32, key: String|
        1 <= attempt && attempt <= last && key@ == uuid_text(event.id) ==> #[trigger] call_requires(
            publish,
            (attempt, &event.event_type, &key, &event.payload),
        )
}

/// Whether `publish` answers `outcome(k)` for the record of `event`
/// whenever it is asked at attempt `k`.
pub open spec fn answers_by_attempt<
    F: Fn(u32, &String, &String, &String) -> Result<(), PublishError>,
>(publish: F, event: OutboxEvent, outcome: spec_fn(u32) -> Result<(), PublishError>) -> bool {
    forall|attempt: u32, key: String, answer: Result<(), PublishError>|
        key@ == uuid_text(event.id) && #[trigger] call_ensures(
            publish,
            (attempt, &event.event_type, &key, &event.payload),
            answer,
        ) ==> answer == outcome(attempt)
}

/// Whether `letter` is the dead letter for `event` after `attempts`
/// attempts of which the last failed with `error`.
pub open spec fn is_dead_letter_for(
    letter: AddToDlq,
    event: OutboxEvent,
    attempts: u32,
    error: PublishError,
) -> bool {
    &&& letter.id == event.id
    &&& letter.aggregate_id == event.aggregate_id
    &&& letter.event_type == event.event_type
    &&& letter.payload == event.payload
    &&& letter.error_message@ == error.message()
    &&& letter.failure_count == attempts as i32
}

/// Whether `publish` can have ended the relay of `event` with `error`: an
/// error that may go away is the answer of the last attempt, after which
/// none is left; any other is the answer of one of the attempts up to the
/// last. Every pause that is due before that attempt was made.
pub open spec fn ended_with<
    F: Fn(u32, &String, &String, &String) -> Result<(), PublishError>,
    P: Fn(u64),
>(publish: F, pause: P, config: RetryConfig, event: OutboxEvent, error: PublishError) -> bool {
    if error.spec_is_transient() {
        record_sent_at(publish, event, config.last_attempt(), Err::<(), PublishError>(error))
            && pauses_made(pause, config, config.last_attempt())
    } else {
        record_sent(publish, pause, config, event, Err::<(), PublishError>(error))
    }
}

/// Whether `publish` can have failed on the record of `event` with an
/// error that ends the relay, of which `letter` is the dead letter.
pub open spec fn gave_up<
    F: Fn(u32, &String, &String, &String) -> Result<(), PublishError>,
    P: Fn(u64),
>(publish: F, pause: P, config: RetryConfig, event: OutboxEvent, letter: AddToDlq) -> bool {
    exists|error: PublishError| #[trigger]
        ended_with(publish, pause, config, event, error) && is_dead_letter_for(
            letter,
            event,
            config.max_attempts,
            error,
        )
}

/// Whether `delivery` is what becomes of `event` where the attempts to
/// publish it ended as `run`: published after a success, and otherwise a
/// dead letter with the error that ended the run.
pub open spec fn delivers(
    delivery: Delivery,
    event: OutboxEvent,
    attempts: u32,
    run: RetryResult<(), PublishError>,
) -> bool {
    match run {
        RetryResult::Success(_) => delivery == Delivery::Published(event),
        RetryResult::Failed(error) | RetryResult::PermanentFailure(error) => {
            delivery matches Delivery::DeadLettered(letter) && is_dead_letter_for(
                letter,
                event,
                attempts,
                error,
            )
        },
    }
}

/// Whether `row` is a dead-letter row for `event` after `attempts`
/// attempts that ended with `error`: it carries the outbox row's
/// identifier, aggregate, event type and payload, the error's message and
/// the number of attempts.
pub open spec fn is_dead_letter_row_for(
    row: DlqRow,
    event: OutboxEvent,
    attempts: u32,
    error: PublishError,
) -> bool {
    &&& row.message.id == event.id
    &&& row.message.aggregate_id == event.aggregate_id
    &&& row.message.event_type == event.event_type
    &&& row.message.payload == event.payload
    &&& row.message.error_message@ == error.message()
    &&& row.message.failure_count == attempts as i32
    &&& row.message.last_failed_at == row.created_at
}

/// An outbox row that the relay gives up on is stored in the dead-letter
/// queue under its own identifier: whatever `publish` answered, the row that
/// the queue stores for the relay's dead letter carries the outbox row's
/// identifier, event type and payload, the number of attempts allowed, and
/// the message of an error that ended the relay.
pub proof fn law_given_up_row_is_stored_as_dead_letter<
    F: Fn(u32, &String, &String, &String) -> Result<(), PublishError>,
    P: Fn(u64),
>(publish: F, pause: P, config: RetryConfig, event: OutboxEvent, letter: AddToDlq, row: DlqRow)
    requires
        gave_up(publish, pause, config, event, letter),
        stores(row, letter),
    ensures
        exists|error: PublishError| #[trigger]
            ended_with(publish, pause, config, event, error) && is_dead_letter_row_for(
                row,
                event,
                config.max_attempts,
                error,
            ),
{
    let error = choose|error: PublishError| #[trigger]
        ended_with(publish, pause, config, event, error) && is_dead_letter_for(
            letter,
            event,
            config.max_attempts,
            error,
        );
    assert(ended_with(publish, pause, config, event, error) && is_dead_letter_row_for(
        row,
        event,
        config.max_attempts,
        error,
    ));
}

/// Relays the rows of the outbox table's change log to the broker.
pub struct OutboxCDCConsumer {
    pub retry_config: RetryConfig,
}

impl OutboxCDCConsumer {
    /// A consumer that tries each record up to five times.
    pub fn new() -> (r: Self)
        ensures
            r.retry_config == (RetryConfig {
                max_attempts: 5,
                initial_delay: 50,
                max_delay: 30_000,
                multiplier: 2,
            }),
    {
        OutboxCDCConsumer { retry_config: RetryConfig::aggressive() }
    }

    /// Reads the outbox row that a row of the change log brings.
    pub fn extract_event_from_cdc_row(&self, data: &CdcRow) -> (r: Result<
        Option<OutboxEvent>,
        ExtractError,
    >)
        ensures
            r == extracted(data),
    {
        match data.operation {
            OperationType::RowInsert | OperationType::PostImage => {
                let id = match data.id {
                    Some(id) => id,
                    None => {
                        return Err(ExtractError::MissingId);
                    },
                };
                let aggregate_id = match data.aggregate_id {
                    Some(id) => id,
                    None => {
                        return Err(ExtractError::MissingAggregateId);
                    },
                };
                let event_type = match &data.event_type {
                    Some(text) => text.clone(),
                    None => {
                        return Err(ExtractError::MissingEventType);
                    },
                };
                let payload = match &data.payload {
                    Some(text) => text.clone(),
                    None => {
                        return Err(ExtractError::MissingPayload);
                    },
                };
                Ok(Some(OutboxEvent { id, aggregate_id, event_type, payload }))
            },
            _ => Ok(None),
        }
    }

    /// Relays one row of the change log: `publish` hands a record to the
    /// broker, given the attempt's number, and `pause` waits between two
    /// attempts.
    ///
    /// A row that brings no outbox row is ignored, and one that cannot be
    /// read is passed over. Every other row is published, with retries for
    /// as long as the error may go away and attempts are left; it ends
    /// published, or as a dead letter that carries the row's identifier, the
    /// last error and the number of attempts allowed. No error comes back.
    ///
    /// `publish` is asked for no record but the row's, at attempts from 1 to
    /// the last, and `pause` for no time but the one due after a failed
    /// attempt; before the attempt that ended the relay, the pause due after
    /// each earlier attempt was made. An error that may go away ends the
    /// relay only as the answer of the last attempt. Where what `publish`
    /// answers depends on the attempt's number alone, the row ends as the
    /// first attempt that succeeds or fails for good decides, and as the last
    /// attempt decides where none does.
    pub fn consume_cdc<
        F: Fn(u32, &String, &String, &String) -> Result<(), PublishError>,
        P: Fn(u64),
    >(&self, data: CdcRow, publish: F, pause: P) -> (r: Delivery)
        requires
            match extracted(&data) {
                Ok(Some(event)) => takes_record(publish, event, self.retry_config.last_attempt()),
                _ => true,
            },
            forall|attempt: nat|
                1 <= attempt < self.retry_config.last_attempt() ==> call_requires(
                    pause,
                    (#[trigger] self.retry_config.delay_after(attempt),),
                ),
        ensures
            match extracted(&data) {
                Ok(Some(event)) => forall|outcome: spec_fn(u32) -> Result<(), PublishError>| #[trigger]
                    answers_by_attempt(publish, event, outcome) ==> delivers(
                        r,
                        event,
                        self.retry_config.max_attempts,
                        run_while_transient_from(self.retry_config.last_attempt(), outcome, 1),
                    ),
                _ => true,
            },
            match extracted(&data) {
                Ok(None) => r is Ignored,
                Err(e) => r == Delivery::Skipped(e),
                Ok(Some(event)) => match r {
                    Delivery::Published(published) => published == event && record_sent(
                        publish,
                        pause,
                        self.retry_config,
                        event,
                        Ok::<(), PublishError>(()),
                    ),
                    Delivery::DeadLettered(letter) => gave_up(
                        publish,
                        pause,
                        self.retry_config,
                        event,
                        letter,
                    ),
                    _ => false,
                },
            },
    {
        let event = match self.extract_event_from_cdc_row(&data) {
            Ok(Some(event)) => event,
            Ok(None) => {
                return Delivery::Ignored;
            },
            Err(e) => {
                return Delivery::Skipped(e);
            },
        };
        let key = uuid_to_string(event.id);
        let first_attempt_time = now();
        let publisher = &publish;
        let ghost last = self.retry_config.last_attempt();
        let attempt = |number: u32| -> (sent: Result<(), PublishError>)
            requires
                1 <= number <= last,
            ensures
                answered(publisher, number, &event.event_type, &key, &event.payload, sent),
            {
                assert(accepts(publisher, number, &event.event_type, &key, &event.payload));
                publisher(number, &event.event_type, &key, &event.payload)
            };
        let result = retry_on_transient(self.retry_config, attempt, pause);
        assert forall|outcome: spec_fn(u32) -> Result<(), PublishError>| #[trigger]
            answers_by_attempt(publish, event, outcome) implies result == run_while_transient_from(
            last,
            outcome,
            1,
        ) by {
            assert forall|number: u32, returned: Result<(), PublishError>| #[trigger]
                call_ensures(attempt, (number,), returned) implies returned == outcome(number) by {
                assert(answered(publisher, number, &event.event_type, &key, &event.payload, returned));
                assert(call_ensures(
                    publish,
                    (number, &event.event_type, &key, &event.payload),
                    returned,
                ));
            }
            assert(returns_by_attempt(attempt, outcome));
        }
        match result {
            RetryResult::Success(_) => {
                proof {
                    let number = choose|number: u32|
                        1 <= number && number <= self.retry_config.last_attempt()
                            && #[trigger] attempt_returned(
                            attempt,
                            number,
                            Ok::<(), PublishError>(()),
                        ) && pauses_made(pause, self.retry_config, number);
                    assert(call_ensures(
                        publish,
                        (number, &event.event_type, &key, &event.payload),
                        Ok::<(), PublishError>(()),
                    ));
                    assert(record_sent_at(publish, event, number, Ok::<(), PublishError>(())));
                }
                Delivery::Published(event)
            },
            RetryResult::Failed(error) => {
                proof {
                    assert(attempt_returned(
                        attempt,
                        self.retry_config.last_attempt(),
                        Err::<(), PublishError>(error),
                    ));
                    assert(call_ensures(
                        publish,
                        (self.retry_config.last_attempt(), &event.event_type, &key, &event.payload),
                        Err::<(), PublishError>(error),
                    ));
                    assert(record_sent_at(
                        publish,
                        event,
                        self.retry_config.last_attempt(),
                        Err::<(), PublishError>(error),
                    ));
                    assert(ended_with(publish, pause, self.retry_config, event, error));
                }
                let letter = AddToDlq {
                    id: event.id,
                    aggregate_id: event.aggregate_id,
                    event_type: event.event_type,
                    payload: event.payload,
                    error_message: error.to_string(),
                    failure_count: #[verifier::truncate]
                    (self.retry_config.max_attempts as i32),
                    first_failed_at: first_attempt_time,
                };
                assert(is_dead_letter_for(letter, event, self.retry_config.max_attempts, error));
                Delivery::DeadLettered(letter)
            },
            RetryResult::PermanentFailure(error) => {
                proof {
                    let number = choose|number: u32|
                        1 <= number && number <= self.retry_config.last_attempt()
                            && #[trigger] attempt_returned(
                            attempt,
                            number,
                            Err::<(), PublishError>(error),
                        ) && pauses_made(pause, self.retry_config, number);
                    assert(call_ensures(
                        publish,
                        (number, &event.event_type, &key, &event.payload),
                        Err::<(), PublishError>(error),
                    ));
                    assert(record_sent_at(publish, event, number, Err::<(), PublishError>(error)));
                    assert(record_sent(
                        publish,
                        pause,
                        self.retry_config,
                        event,
                        Err::<(), PublishError>(error),
                    ));
                    assert(ended_with(publish, pause, self.retry_config, event, error));
                }
                let letter = AddToDlq {
                    id: event.id,
                    aggregate_id: event.aggregate_id,
                    event_type: event.event_type,
                    payload: event.payload,
                    error_message: error.to_string(),
                    failure_count: #[verifier::truncate]
                    (self.retry_config.max_attempts as i32),
                    first_failed_at: first_attempt_time,
                };
                assert(is_dead_letter_for(letter, event, self.retry_config.max_attempts, error));
                Delivery::DeadLettered(letter)
            },
        }
    }

    /// Counts what became of a row, which took `duration_micros` to relay.
    ///
    /// A published row counts as processed under its event type, and as a
    /// successful publication. A dead letter counts as failed under its
    /// event type, as a failed publication, and as a dead letter, in total
    /// and under its event type. A row that cannot be read counts as
    /// failed under the event type `unknown`. A row that is ignored counts
    /// nowhere.
    pub fn record_delivery(&self, metrics: &mut Metrics, delivery: &Delivery, duration_micros: u64)
        requires
            old(metrics).named(),
        ensures
            final(metrics).named(),
            final(metrics).registry == old(metrics).registry,
            match delivery {
                Delivery::Ignored => *final(metrics) == *old(metrics),
                Delivery::Skipped(_) => counter_family_count(
                    final(metrics).cdc_events_failed,
                    seq![UNKNOWN_EVENT_TYPE@, "processing_error"@],
                ) == incremented(
                    counter_family_count(
                        old(metrics).cdc_events_failed,
                        seq![UNKNOWN_EVENT_TYPE@, "processing_error"@],
                    ),
                ) && final(metrics).dlq_messages_total == old(metrics).dlq_messages_total,
                Delivery::Published(event) => counter_family_count(
                    final(metrics).cdc_events_processed,
                    seq![event.event_type@],
                ) == incremented(
                    counter_family_count(
                        old(metrics).cdc_events_processed,
                        seq![event.event_type@],
                    ),
                ) && counter_family_count(
                    final(metrics).retry_success,
                    seq![PUBLISH_OPERATION@],
                ) == incremented(
                    counter_family_count(old(metrics).retry_success, seq![PUBLISH_OPERATION@]),
                ) && final(metrics).cdc_events_failed == old(metrics).cdc_events_failed
                    && final(metrics).retry_failure == old(metrics).retry_failure
                    && final(metrics).dlq_messages_total == old(metrics).dlq_messages_total
                    && final(metrics).dlq_messages_by_event_type == old(
                    metrics,
                ).dlq_messages_by_event_type,
                Delivery::DeadLettered(letter) => counter_family_count(
                    final(metrics).cdc_events_failed,
                    seq![letter.event_type@, "processing_error"@],
                ) == incremented(
                    counter_family_count(
                        old(metrics).cdc_events_failed,
                        seq![letter.event_type@, "processing_error"@],
                    ),
                ) && counter_family_count(
                    final(metrics).retry_failure,
                    seq![PUBLISH_OPERATION@],
                ) == incremented(
                    counter_family_count(old(metrics).retry_failure, seq![PUBLISH_OPERATION@]),
                ) && int_counter_value(final(metrics).dlq_messages_total) == incremented(
                    int_counter_value(old(metrics).dlq_messages_total),
                ) && counter_family_count(
                    final(metrics).dlq_messages_by_event_type,
                    seq![letter.event_type@],
                ) == incremented(
                    counter_family_count(
                        old(metrics).dlq_messages_by_event_type,
                        seq![letter.event_type@],
                    ),
                ) && final(metrics).cdc_events_processed == old(metrics).cdc_events_processed
                    && final(metrics).retry_success == old(metrics).retry_success,
            },
    {
        match delivery {
            Delivery::Ignored => {},
            Delivery::Skipped(_) => {
                metrics.record_cdc_event(UNKNOWN_EVENT_TYPE, duration_micros, false);
            },
            Delivery::Published(event) => {
                metrics.record_cdc_event(event.event_type.as_str(), duration_micros, true);
                metrics.record_retry_outcome(PUBLISH_OPERATION, true);
            },
            Delivery::DeadLettered(letter) => {
                metrics.record_cdc_event(letter.event_type.as_str(), duration_micros, false);
                metrics.record_retry_outcome(PUBLISH_OPERATION, false);
                metrics.record_dlq_message(letter.event_type.as_str());
            },
        }
    }
}

} // verus!
