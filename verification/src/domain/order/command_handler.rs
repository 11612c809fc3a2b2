use vstd::prelude::*;

use crate::event_sourcing::base::aggregate::AggregateRoot;
use crate::event_sourcing::base::event::EventEnvelope;
use crate::event_sourcing::store::event_store::{
    refused_one, AppendBatch, CommandError, EventStore, StoreError,
};
use crate::platform::{new_uuid, Timestamp};

use super::aggregate::{OrderAggregate, OrderState};
use super::commands::OrderCommand;
use super::errors::OrderError;
use super::events::{OrderCreated, OrderEvent, OrderFact};
use super::value_objects::OrderStatus;

verus! {

/// Carries an order command from the caller to the event store: it rebuilds
/// the order, lets it decide, and prepares the append of what it decided.
pub struct OrderCommandHandler {
    pub event_store: EventStore<OrderEvent>,
}

/// The state of the order that decides a command, given the version that
/// was read for it and the envelopes that were loaded: what the history
/// describes where the order exists, and an order without lines where it
/// does not. `None` where an existing order's history cannot be folded.
pub open spec fn deciding_state(
    current_version: i64,
    history: Seq<EventEnvelope<OrderEvent>>,
) -> Option<OrderState> {
    if current_version > 0 {
        OrderState::replay(history)
    } else {
        OrderState::born(OrderFact::Created { customer_id: 0, items: Seq::empty() })
    }
}

/// Whether `envelope` wraps an event that says `fact`, for `aggregate_id`
/// and `correlation_id`: it is tagged with the fact's tag, is at schema
/// version 1, and names neither cause nor user.
pub open spec fn wraps(
    envelope: EventEnvelope<OrderEvent>,
    fact: OrderFact,
    aggregate_id: u128,
    correlation_id: u128,
) -> bool {
    &&& envelope.event_data@ == fact
    &&& envelope.aggregate_id == aggregate_id
    &&& envelope.event_type@ == fact.tag()
    &&& envelope.event_version == 1
    &&& envelope.correlation_id == correlation_id
    &&& envelope.causation_id is None
    &&& envelope.user_id is None
}

impl OrderCommandHandler {
    pub fn new(event_store: EventStore<OrderEvent>) -> (r: Self)
        ensures
            r.event_store == event_store,
    {
        OrderCommandHandler { event_store }
    }

    /// Whether `batch` is the append of the one event that `state` decides
    /// for `command`, wrapped for `aggregate_id` and `correlation_id`, on
    /// top of the state's version and with its outbox row.
    pub open spec fn carried_out<F: Fn(&OrderEvent) -> Result<String, String>>(
        &self,
        batch: AppendBatch,
        state: OrderState,
        aggregate_id: u128,
        command: &OrderCommand,
        correlation_id: u128,
        serialize: F,
    ) -> bool {
        exists|envelope: EventEnvelope<OrderEvent>, at: Timestamp|
            #[trigger] wraps(envelope, state.decision(command, at), aggregate_id, correlation_id)
                && self.event_store.prepared(
                batch,
                aggregate_id,
                state.version,
                seq![envelope],
                true,
                serialize,
            )
    }

    /// Whether `serialize` can have refused, for `reason`, the one event
    /// that `state` decides for `command`, wrapped for `aggregate_id` and
    /// `correlation_id`.
    pub open spec fn refused<F: Fn(&OrderEvent) -> Result<String, String>>(
        &self,
        state: OrderState,
        aggregate_id: u128,
        command: &OrderCommand,
        correlation_id: u128,
        serialize: F,
        reason: String,
    ) -> bool {
        exists|envelope: EventEnvelope<OrderEvent>, at: Timestamp|
            #[trigger] wraps(envelope, state.decision(command, at), aggregate_id, correlation_id)
                && refused_one(serialize, seq![envelope], reason)
    }

    /// Handles `command` for the order `aggregate_id`, of which
    /// `current_version` and `history` were read from the store.
    ///
    /// An order that exists (its version is above 0) is rebuilt from its
    /// history; an order that does not can only be created. The order
    /// decides the command, and the event it decides on is wrapped and
    /// appended on top of the order's version, with its outbox row. The
    /// batch is not written here: the caller hands it to the database.
    ///
    /// A command other than a creation for an order that does not exist
    /// gives `AggregateNotFound`, whatever else holds. The append fails on
    /// serialization only where `serialize` refuses the event.
    pub fn handle<F: Fn(&OrderEvent) -> Result<String, String>>(
        &self,
        aggregate_id: u128,
        command: OrderCommand,
        correlation_id: u128,
        current_version: i64,
        history: Vec<EventEnvelope<OrderEvent>>,
        serialize: F,
    ) -> (r: Result<AppendBatch, CommandError<OrderError>>)
        requires
            forall|i: int| 0 <= i < history.len() ==> (#[trigger] history[i]).sequence_number < i64::MAX,
            forall|event: &OrderEvent| call_requires(serialize, (event,)),
        ensures
            match r {
                Ok(batch) => deciding_state(current_version, history@) matches Some(state)
                    && state.rejection(&command) is None && state.version == current_version
                    && self.carried_out(
                    batch,
                    state,
                    aggregate_id,
                    &command,
                    correlation_id,
                    serialize,
                ) && batch.well_sequenced() && batch.mirrored(true),
                Err(CommandError::AggregateNotFound(id)) => id == aggregate_id && current_version
                    <= 0 && !(command is CreateOrder),
                Err(CommandError::Load(_)) => current_version > 0 && deciding_state(
                    current_version,
                    history@,
                ) is None,
                Err(CommandError::Rejected(e)) => deciding_state(
                    current_version,
                    history@,
                ) matches Some(state) && state.rejection(&command) == Some(e),
                Err(CommandError::Store(e)) => deciding_state(
                    current_version,
                    history@,
                ) matches Some(state) && state.rejection(&command) is None && match e {
                    StoreError::ConcurrencyConflict { expected, actual } => expected
                        == state.version && actual == current_version && expected != actual,
                    StoreError::Serialization(reason) => state.version == current_version
                        && self.refused(
                        state,
                        aggregate_id,
                        &command,
                        correlation_id,
                        serialize,
                        reason,
                    ),
                    _ => false,
                },
            },
            current_version <= 0 && !(command is CreateOrder) ==> (r matches Err(
                CommandError::AggregateNotFound(id),
            ) && id == aggregate_id),
    {
        let exists = self.event_store.aggregate_exists(current_version);
        let aggregate = if exists {
            match self.event_store.load_aggregate::<OrderAggregate>(aggregate_id, history) {
                Ok(aggregate) => aggregate,
                Err(e) => {
                    return Err(CommandError::Load(e));
                },
            }
        } else {
            match &command {
                OrderCommand::CreateOrder { .. } => {
                    // An order without lines, to validate against.
                    let event = OrderEvent::Created(
                        OrderCreated { customer_id: new_uuid(), items: Vec::new() },
                    );
                    match OrderAggregate::apply_first_event(&event) {
                        Ok(aggregate) => aggregate,
                        Err(e) => {
                            return Err(CommandError::Rejected(e));
                        },
                    }
                },
                _ => {
                    return Err(CommandError::AggregateNotFound(aggregate_id));
                },
            }
        };
        let expected_version = aggregate.version();
        let ghost state = deciding_state(current_version, history@)->0;
        proof {
            if !exists {
                assert(aggregate@.items =~= Seq::empty());
                assert(aggregate@.rejection(&command) == state.rejection(&command));
                assert forall|at: Timestamp|
                    aggregate@.decision(&command, at) == state.decision(&command, at) by {}
            }
        }
        let domain_events = match aggregate.handle_command(&command) {
            Ok(events) => events,
            Err(e) => {
                return Err(CommandError::Rejected(e));
            },
        };
        let ghost at = choose|at: Timestamp| domain_events[0]@ == aggregate@.decision(&command, at);
        let event = domain_events[0].clone();
        let envelope = EventEnvelope::new(
            aggregate_id,
            expected_version + 1,
            event.type_tag().to_owned(),
            event,
            correlation_id,
        );
        let ghost wrapped = envelope;
        let mut envelopes: Vec<EventEnvelope<OrderEvent>> = Vec::new();
        envelopes.push(envelope);
        assert(envelopes@ =~= seq![wrapped]);
        match self.event_store.append_events(
            aggregate_id,
            expected_version,
            current_version,
            envelopes,
            true,
            serialize,
        ) {
            Ok(batch) => {
                assert(wraps(wrapped, state.decision(&command, at), aggregate_id, correlation_id));
                assert(self.event_store.prepared(
                    batch,
                    aggregate_id,
                    state.version,
                    seq![wrapped],
                    true,
                    serialize,
                ));
                Ok(batch)
            },
            Err(e) => {
                assert(wraps(wrapped, state.decision(&command, at), aggregate_id, correlation_id));
                Err(CommandError::Store(e))
            },
        }
    }
}

} // verus!
