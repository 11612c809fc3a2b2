use std::marker::PhantomData;
use vstd::prelude::*;

use crate::event_sourcing::base::aggregate::{AggregateRoot, LoadError};
use crate::event_sourcing::base::event::{DomainEvent, EventEnvelope};
use crate::platform::{decimal_text, int_to_string, new_uuid, now, uuid_text, uuid_to_string, Timestamp};

verus! {

/// A row of the `event_store` table.
#[derive(Debug)]
pub struct StoredEvent {
    pub aggregate_id: u128,
    pub sequence_number: i64,
    pub event_id: u128,
    pub event_type: String,
    pub event_version: i32,
    /// The serialized event.
    pub event_data: String,
    pub causation_id: Option<u128>,
    pub correlation_id: u128,
    pub timestamp: Timestamp,
}

/// A row of the `outbox_messages` table.
#[derive(Debug)]
pub struct OutboxRow {
    pub id: u128,
    pub aggregate_id: u128,
    pub aggregate_type: String,
    pub event_id: u128,
    pub event_type: String,
    pub event_version: i32,
    /// The serialized event, as in the event's own row.
    pub payload: String,
    pub topic: String,
    pub partition_key: String,
    pub causation_id: Option<u128>,
    pub correlation_id: u128,
    pub created_at: Timestamp,
    pub attempts: i32,
}

/// A row of the `aggregate_sequence` table.
#[derive(Debug, Clone, Copy, PartialEq, Eq, Structural)]
pub struct SequenceRow {
    pub aggregate_id: u128,
    pub current_sequence: i64,
    pub updated_at: Timestamp,
}

impl Clone for StoredEvent {
    fn clone(&self) -> (r: Self)
        ensures
            r == *self,
    {
        StoredEvent {
            aggregate_id: self.aggregate_id,
            sequence_number: self.sequence_number,
            event_id: self.event_id,
            event_type: self.event_type.clone(),
            event_version: self.event_version,
            event_data: self.event_data.clone(),
            causation_id: self.causation_id,
            correlation_id: self.correlation_id,
            timestamp: self.timestamp,
        }
    }
}

impl Clone for OutboxRow {
    fn clone(&self) -> (r: Self)
        ensures
            r == *self,
    {
        OutboxRow {
            id: self.id,
            aggregate_id: self.aggregate_id,
            aggregate_type: self.aggregate_type.clone(),
            event_id: self.event_id,
            event_type: self.event_type.clone(),
            event_version: self.event_version,
            payload: self.payload.clone(),
            topic: self.topic.clone(),
            partition_key: self.partition_key.clone(),
            causation_id: self.causation_id,
            correlation_id: self.correlation_id,
            created_at: self.created_at,
            attempts: self.attempts,
        }
    }
}

/// Everything that one append writes. The rows are written together or not
/// at all, under the aggregate's partition.
#[derive(Debug)]
pub struct AppendBatch {
    pub aggregate_id: u128,
    /// The version that the aggregate must still have when the rows are written.
    pub expected_version: i64,
    pub events: Vec<StoredEvent>,
    pub outbox: Vec<OutboxRow>,
    pub sequence: SequenceRow,
}

impl AppendBatch {
    /// The version of the aggregate once the batch is written.
    pub open spec fn spec_new_version(&self) -> i64 {
        self.sequence.current_sequence
    }

    pub fn new_version(&self) -> (r: i64)
        ensures
            r == self.spec_new_version(),
    {
        self.sequence.current_sequence
    }

    /// The batch holds at least one event; its events belong to its
    /// aggregate and are numbered from `expected_version + 1` without a
    /// gap; its sequence row sets the aggregate to the last number.
    pub open spec fn well_sequenced(&self) -> bool {
        &&& self.events@.len() > 0
        &&& forall|i: int|
            0 <= i < self.events@.len() ==> (#[trigger] self.events@[i]).aggregate_id
                == self.aggregate_id && self.events@[i].sequence_number == self.expected_version + i
                + 1
        &&& self.sequence.aggregate_id == self.aggregate_id
        &&& self.sequence.current_sequence == self.expected_version + self.events@.len()
    }

    /// With `publish`, every event has its outbox row, at the same place,
    /// for the same event and aggregate; without, there is no outbox row.
    pub open spec fn mirrored(&self, publish: bool) -> bool {
        if publish {
            &&& self.outbox@.len() == self.events@.len()
            &&& forall|i: int|
                0 <= i < self.outbox@.len() ==> (#[trigger] self.outbox@[i]).event_id
                    == self.events@[i].event_id && self.outbox@[i].aggregate_id
                    == self.aggregate_id
        } else {
            self.outbox@.len() == 0
        }
    }
}

/// Whether `row` stores `envelope` as event number `sequence_number` of
/// `aggregate_id`, with `payload` as its serialized form.
pub open spec fn stores_envelope<E>(
    row: StoredEvent,
    envelope: EventEnvelope<E>,
    aggregate_id: u128,
    sequence_number: int,
) -> bool {
    &&& row.aggregate_id == aggregate_id
    &&& row.sequence_number == sequence_number
    &&& row.event_id == envelope.event_id
    &&& row.event_type == envelope.event_type
    &&& row.event_version == envelope.event_version
    &&& row.causation_id == envelope.causation_id
    &&& row.correlation_id == envelope.correlation_id
    &&& row.timestamp == envelope.timestamp
}

/// Whether `row` is the outbox row of the stored event `event`, routed to
/// `topic` for an aggregate of type `aggregate_type`: it repeats the
/// event's columns and payload, is keyed by the aggregate's identifier as
/// text, and has not been attempted yet.
pub open spec fn announces(
    row: OutboxRow,
    event: StoredEvent,
    aggregate_type: String,
    topic: String,
) -> bool {
    &&& row.aggregate_id == event.aggregate_id
    &&& row.aggregate_type == aggregate_type
    &&& row.event_id == event.event_id
    &&& row.event_type == event.event_type
    &&& row.event_version == event.event_version
    &&& row.payload == event.event_data
    &&& row.topic == topic
    &&& row.partition_key@ == uuid_text(event.aggregate_id)
    &&& row.causation_id == event.causation_id
    &&& row.correlation_id == event.correlation_id
    &&& row.attempts == 0
}

/// Why the store refused.
#[derive(Debug)]
pub enum StoreError {
    /// Nothing was given to append.
    EmptyEvents,
    /// The aggregate is not at the version that the writer built on.
    ConcurrencyConflict { expected: i64, actual: i64 },
    /// An event could not be serialized.
    Serialization(String),
    /// A stored event could not be read back.
    Deserialization(String),
    /// The database failed.
    Storage(String),
}

impl StoreError {
    /// The message shown for this error.
    pub open spec fn message(&self) -> Seq<char> {
        match self {
            StoreError::EmptyEvents => "Cannot append empty event list"@,
            StoreError::ConcurrencyConflict { expected, actual } =>
                "Concurrency conflict: expected version "@ + decimal_text(*expected as int)
                    + ", but current is "@ + decimal_text(*actual as int),
            StoreError::Serialization(reason) => "Serialization failed: "@ + reason@,
            StoreError::Deserialization(reason) => "Deserialization failed: "@ + reason@,
            StoreError::Storage(reason) => "Storage failed: "@ + reason@,
        }
    }

    pub fn to_string(&self) -> (r: String)
        ensures
            r@ == self.message(),
    {
        match self {
            StoreError::EmptyEvents => "Cannot append empty event list".to_owned(),
            StoreError::ConcurrencyConflict { expected, actual } => {
                let mut text = "Concurrency conflict: expected version ".to_owned();
                text.append(int_to_string(*expected).as_str());
                text.append(", but current is ");
                text.append(int_to_string(*actual).as_str());
                text
            },
            StoreError::Serialization(reason) => {
                let mut text = "Serialization failed: ".to_owned();
                text.append(reason.as_str());
                text
            },
            StoreError::Deserialization(reason) => {
                let mut text = "Deserialization failed: ".to_owned();
                text.append(reason.as_str());
                text
            },
            StoreError::Storage(reason) => {
                let mut text = "Storage failed: ".to_owned();
                text.append(reason.as_str());
                text
            },
        }
    }
}

/// Why an aggregate could not be loaded.
#[derive(Debug)]
pub enum AggregateLoadError<X> {
    /// The aggregate has no event.
    NotFound(u128),
    /// Its events do not fold into an aggregate.
    Invalid(LoadError<X>),
}

/// Why a command was not carried out.
#[derive(Debug)]
pub enum CommandError<X> {
    /// The command needs an aggregate, and there is none under this identifier.
    AggregateNotFound(u128),
    /// The aggregate's events could not be folded.
    Load(AggregateLoadError<X>),
    /// The aggregate refused the command.
    Rejected(X),
    /// The store refused the events.
    Store(StoreError),
}

/// How the database answered a batch.
#[derive(Debug)]
pub enum BatchOutcome {
    /// Every row is written.
    Applied,
    /// Another writer got there first: the aggregate is at `current`, and
    /// no row is written.
    Collision { current: i64 },
    /// The write failed, and no row is written.
    Failed(String),
}

/// Whether `serialize` can have answered `outcome` for `event`.
pub open spec fn serialized_as<E, F: Fn(&E) -> Result<String, String>>(
    serialize: F,
    event: E,
    outcome: Result<String, String>,
) -> bool {
    call_ensures(serialize, (&event,), outcome)
}

/// Whether `serialize` can have refused one of the events of `envelopes`
/// for `reason`.
pub open spec fn refused_one<E, F: Fn(&E) -> Result<String, String>>(
    serialize: F,
    envelopes: Seq<EventEnvelope<E>>,
    reason: String,
) -> bool {
    exists|i: int|
        0 <= i && i < envelopes.len() && #[trigger] serialized_as(
            serialize,
            envelopes[i].event_data,
            Err::<String, String>(reason),
        )
}

/// Whether `deserialize` can have answered `outcome` for `text`.
pub open spec fn deserialized_as<E, F: Fn(&String) -> Result<E, String>>(
    deserialize: F,
    text: String,
    outcome: Result<E, String>,
) -> bool {
    call_ensures(deserialize, (&text,), outcome)
}

/// Whether `deserialize` can have refused the data of one of `rows` for
/// `reason`.
pub open spec fn unreadable_one<E, F: Fn(&String) -> Result<E, String>>(
    deserialize: F,
    rows: Seq<StoredEvent>,
    reason: String,
) -> bool {
    exists|i: int|
        0 <= i && i < rows.len() && #[trigger] deserialized_as(
            deserialize,
            rows[i].event_data,
            Err::<E, String>(reason),
        )
}

/// The event store of one aggregate type: it prepares what an append
/// writes and turns what a read returned into envelopes.
pub struct EventStore<E: DomainEvent> {
    pub aggregate_type_name: String,
    pub topic_name: String,
    pub _phantom: PhantomData<E>,
}

impl<E: DomainEvent> EventStore<E> {
    /// A store for aggregates of type `aggregate_type_name`, whose events
    /// are routed to `topic_name`.
    pub fn new(aggregate_type_name: &str, topic_name: &str) -> (r: Self)
        ensures
            r.aggregate_type_name@ == aggregate_type_name@,
            r.topic_name@ == topic_name@,
    {
        EventStore {
            aggregate_type_name: aggregate_type_name.to_owned(),
            topic_name: topic_name.to_owned(),
            _phantom: PhantomData,
        }
    }

    /// Whether `batch` is what appending `envelopes` to `aggregate_id` at
    /// `expected_version` writes: one event row for each envelope, in
    /// order, numbered by the store whatever number the envelope carries,
    /// with `serialize`'s text of the event as its data; the outbox rows
    /// that announce them, where `publish`; and the new sequence.
    pub open spec fn prepared<F: Fn(&E) -> Result<String, String>>(
        &self,
        batch: AppendBatch,
        aggregate_id: u128,
        expected_version: i64,
        envelopes: Seq<EventEnvelope<E>>,
        publish: bool,
        serialize: F,
    ) -> bool {
        &&& batch.aggregate_id == aggregate_id
        &&& batch.expected_version == expected_version
        &&& batch.events@.len() == envelopes.len()
        &&& forall|i: int|
            0 <= i < envelopes.len() ==> stores_envelope(
                #[trigger] batch.events@[i],
                envelopes[i],
                aggregate_id,
                expected_version + i + 1,
            ) && serialized_as(
                serialize,
                envelopes[i].event_data,
                Ok::<String, String>(batch.events@[i].event_data),
            )
        &&& batch.outbox@.len() == if publish {
            envelopes.len()
        } else {
            0
        }
        &&& forall|i: int|
            0 <= i < batch.outbox@.len() ==> announces(
                #[trigger] batch.outbox@[i],
                batch.events@[i],
                self.aggregate_type_name,
                self.topic_name,
            )
        &&& batch.sequence.aggregate_id == aggregate_id
        &&& batch.sequence.current_sequence == expected_version + envelopes.len()
    }

    /// Prepares the append of `events` to `aggregate_id`, for a writer that
    /// built on `expected_version`, where the store last read
    /// `current_version` for the aggregate.
    ///
    /// Nothing is prepared for an empty list, nor where the two versions
    /// differ, nor where an event cannot be serialized; every other append
    /// gives the batch that [`Self::prepared`] describes.
    pub fn append_events<F: Fn(&E) -> Result<String, String>>(
        &self,
        aggregate_id: u128,
        expected_version: i64,
        current_version: i64,
        events: Vec<EventEnvelope<E>>,
        publish_to_outbox: bool,
        serialize: F,
    ) -> (r: Result<AppendBatch, StoreError>)
        requires
            current_version == expected_version ==> expected_version + events.len() <= i64::MAX,
            forall|event: &E| call_requires(serialize, (event,)),
        ensures
            match r {
                Ok(batch) => events.len() > 0 && current_version == expected_version
                    && self.prepared(
                    batch,
                    aggregate_id,
                    expected_version,
                    events@,
                    publish_to_outbox,
                    serialize,
                ),
                Err(StoreError::EmptyEvents) => events.len() == 0,
                Err(StoreError::ConcurrencyConflict { expected, actual }) => events.len() > 0
                    && current_version != expected_version && expected == expected_version
                    && actual == current_version,
                Err(StoreError::Serialization(reason)) => events.len() > 0 && current_version
                    == expected_version && refused_one(serialize, events@, reason),
                Err(_) => false,
            },
            r matches Ok(batch) ==> batch.well_sequenced() && batch.mirrored(publish_to_outbox),
    {
        if events.len() == 0 {
            return Err(StoreError::EmptyEvents);
        }
        if current_version != expected_version {
            return Err(
                StoreError::ConcurrencyConflict { expected: expected_version, actual: current_version },
            );
        }
        let mut rows: Vec<StoredEvent> = Vec::new();
        let mut outbox: Vec<OutboxRow> = Vec::new();
        let mut new_version: i64 = expected_version;
        let mut i: usize = 0;
        while i < events.len()
            invariant
                i <= events.len(),
                events.len() > 0,
                current_version == expected_version,
                expected_version + events.len() <= i64::MAX,
                new_version == expected_version + i,
                rows@.len() == i,
                outbox@.len() == if publish_to_outbox {
                    i as int
                } else {
                    0
                },
                forall|event: &E| call_requires(serialize, (event,)),
                forall|k: int|
                    0 <= k < i ==> stores_envelope(
                        #[trigger] rows@[k],
                        events@[k],
                        aggregate_id,
                        expected_version + k + 1,
                    ) && serialized_as(
                        serialize,
                        events@[k].event_data,
                        Ok::<String, String>(rows@[k].event_data),
                    ),
                forall|k: int|
                    0 <= k < outbox@.len() ==> announces(
                        #[trigger] outbox@[k],
                        rows@[k],
                        self.aggregate_type_name,
                        self.topic_name,
                    ),
            decreases events.len() - i,
        {
            new_version = new_version + 1;
            let envelope = &events[i];
            let event_json = match serialize(&envelope.event_data) {
                Ok(text) => text,
                Err(reason) => {
                    assert(serialized_as(
                        serialize,
                        events@[i as int].event_data,
                        Err::<String, String>(reason),
                    ));
                    return Err(StoreError::Serialization(reason));
                },
            };
            let row = StoredEvent {
                aggregate_id,
                sequence_number: new_version,
                event_id: envelope.event_id,
                event_type: envelope.event_type.clone(),
                event_version: envelope.event_version,
                event_data: event_json,
                causation_id: envelope.causation_id,
                correlation_id: envelope.correlation_id,
                timestamp: envelope.timestamp,
            };
            if publish_to_outbox {
                let announcement = OutboxRow {
                    id: new_uuid(),
                    aggregate_id,
                    aggregate_type: self.aggregate_type_name.clone(),
                    event_id: row.event_id,
                    event_type: row.event_type.clone(),
                    event_version: row.event_version,
                    payload: row.event_data.clone(),
                    topic: self.topic_name.clone(),
                    partition_key: uuid_to_string(aggregate_id),
                    causation_id: row.causation_id,
                    correlation_id: row.correlation_id,
                    created_at: now(),
                    attempts: 0,
                };
                outbox.push(announcement);
            }
            rows.push(row);
            i = i + 1;
        }
        let batch = AppendBatch {
            aggregate_id,
            expected_version,
            events: rows,
            outbox,
            sequence: SequenceRow {
                aggregate_id,
                current_sequence: new_version,
                updated_at: now(),
            },
        };
        Ok(batch)
    }

    /// What an append returns once the database has answered its batch: the
    /// new version where the rows are written, a concurrency conflict where
    /// another writer got there first, the failure otherwise.
    pub fn complete_append(&self, batch: &AppendBatch, outcome: BatchOutcome) -> (r: Result<
        i64,
        StoreError,
    >)
        ensures
            match outcome {
                BatchOutcome::Applied => r matches Ok(version) && version
                    == batch.spec_new_version(),
                BatchOutcome::Collision { current } => r matches Err(
                    StoreError::ConcurrencyConflict { expected, actual },
                ) && expected == batch.expected_version && actual == current,
                BatchOutcome::Failed(reason) => r matches Err(StoreError::Storage(text)) && text
                    == reason,
            },
    {
        match outcome {
            BatchOutcome::Applied => Ok(batch.new_version()),
            BatchOutcome::Collision { current } => Err(
                StoreError::ConcurrencyConflict { expected: batch.expected_version, actual: current },
            ),
            BatchOutcome::Failed(reason) => Err(StoreError::Storage(reason)),
        }
    }

    /// Turns the rows that were read for an aggregate into envelopes, in the
    /// order of the rows: each envelope pairs the row's columns with what
    /// `deserialize` makes of its data, and has neither user nor metadata.
    /// The first row that cannot be deserialized fails the load.
    pub fn load_events<F: Fn(&String) -> Result<E, String>>(
        &self,
        rows: Vec<StoredEvent>,
        deserialize: F,
    ) -> (r: Result<Vec<EventEnvelope<E>>, StoreError>)
        requires
            forall|text: &String| call_requires(deserialize, (text,)),
        ensures
            match r {
                Ok(envelopes) => envelopes@.len() == rows@.len() && forall|i: int|
                    0 <= i < rows@.len() ==> read_back(
                        #[trigger] envelopes@[i],
                        rows@[i],
                    ) && deserialized_as(
                        deserialize,
                        rows@[i].event_data,
                        Ok::<E, String>(envelopes@[i].event_data),
                    ),
                Err(StoreError::Deserialization(reason)) => unreadable_one(
                    deserialize,
                    rows@,
                    reason,
                ),
                Err(_) => false,
            },
    {
        let mut envelopes: Vec<EventEnvelope<E>> = Vec::new();
        let mut i: usize = 0;
        while i < rows.len()
            invariant
                i <= rows.len(),
                envelopes@.len() == i,
                forall|text: &String| call_requires(deserialize, (text,)),
                forall|k: int|
                    0 <= k < i ==> read_back(#[trigger] envelopes@[k], rows@[k]) && deserialized_as(
                        deserialize,
                        rows@[k].event_data,
                        Ok::<E, String>(envelopes@[k].event_data),
                    ),
            decreases rows.len() - i,
        {
            let row = &rows[i];
            let event_data = match deserialize(&row.event_data) {
                Ok(event) => event,
                Err(reason) => {
                    assert(deserialized_as(
                        deserialize,
                        rows@[i as int].event_data,
                        Err::<E, String>(reason),
                    ));
                    return Err(StoreError::Deserialization(reason));
                },
            };
            envelopes.push(
                EventEnvelope {
                    event_id: row.event_id,
                    aggregate_id: row.aggregate_id,
                    sequence_number: row.sequence_number,
                    event_type: row.event_type.clone(),
                    event_version: row.event_version,
                    event_data,
                    causation_id: row.causation_id,
                    correlation_id: row.correlation_id,
                    user_id: None,
                    timestamp: row.timestamp,
                    metadata: Vec::new(),
                },
            );
            i = i + 1;
        }
        Ok(envelopes)
    }

    /// The version of an aggregate, from what was read of its sequence row:
    /// the row's sequence, and 0 where there is no row.
    pub fn get_current_version(&self, sequence_row: Option<i64>) -> (r: i64)
        ensures
            r == match sequence_row {
                Some(version) => version,
                None => 0,
            },
    {
        match sequence_row {
            Some(version) => version,
            None => 0,
        }
    }

    /// Rebuilds an aggregate from the envelopes that were loaded for it.
    /// An aggregate without events is not found.
    pub fn load_aggregate<A: AggregateRoot<Event = E>>(
        &self,
        aggregate_id: u128,
        events: Vec<EventEnvelope<E>>,
    ) -> (r: Result<A, AggregateLoadError<A::Error>>)
        requires
            forall|i: int| 0 <= i < events.len() - 1 ==> (#[trigger] events[i]).sequence_number < i64::MAX,
        ensures
            events.len() == 0 ==> (r matches Err(AggregateLoadError::NotFound(id)) && id
                == aggregate_id),
            events.len() > 0 ==> match r {
                Ok(aggregate) => call_ensures(
                    A::load_from_events,
                    (events,),
                    Ok::<A, LoadError<A::Error>>(aggregate),
                ),
                Err(AggregateLoadError::Invalid(e)) => call_ensures(
                    A::load_from_events,
                    (events,),
                    Err::<A, LoadError<A::Error>>(e),
                ),
                Err(AggregateLoadError::NotFound(_)) => false,
            },
    {
        if events.len() == 0 {
            return Err(AggregateLoadError::NotFound(aggregate_id));
        }
        match A::load_from_events(events) {
            Ok(aggregate) => Ok(aggregate),
            Err(e) => Err(AggregateLoadError::Invalid(e)),
        }
    }

    /// Whether an aggregate at `current_version` has any event.
    pub fn aggregate_exists(&self, current_version: i64) -> (r: bool)
        ensures
            r == (current_version > 0),
    {
        current_version > 0
    }
}

/// Whether `envelope` is what is read back from `row`: the row's columns,
/// without user or metadata, which are not stored.
pub open spec fn read_back<E>(envelope: EventEnvelope<E>, row: StoredEvent) -> bool {
    &&& envelope.event_id == row.event_id
    &&& envelope.aggregate_id == row.aggregate_id
    &&& envelope.sequence_number == row.sequence_number
    &&& envelope.event_type == row.event_type
    &&& envelope.event_version == row.event_version
    &&& envelope.causation_id == row.causation_id
    &&& envelope.correlation_id == row.correlation_id
    &&& envelope.user_id is None
    &&& envelope.timestamp == row.timestamp
    &&& envelope.metadata@.len() == 0
}

} // verus!
