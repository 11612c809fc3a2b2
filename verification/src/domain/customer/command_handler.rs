use vstd::prelude::*;

use crate::event_sourcing::base::aggregate::AggregateRoot;
use crate::event_sourcing::base::event::EventEnvelope;
use crate::event_sourcing::store::event_store::{
    refused_one, AppendBatch, CommandError, EventStore, StoreError,
};

use super::aggregate::{CustomerAggregate, CustomerState};
use super::commands::CustomerCommand;
use super::errors::CustomerError;
use super::events::{CustomerEvent, CustomerRegistered};
use super::value_objects::Email;

verus! {

/// Carries a customer command from the caller to the event store: it
/// rebuilds the customer, lets it decide, and prepares the append of what
/// it decided.
pub struct CustomerCommandHandler {
    pub event_store: EventStore<CustomerEvent>,
}

/// Whether `state` is that of the customer that decides a command, given
/// the version that was read for it and the envelopes that were loaded: what
/// the history describes where the customer exists, and a newly registered
/// customer otherwise.
pub open spec fn is_deciding_state(
    state: CustomerState,
    current_version: i64,
    history: Seq<EventEnvelope<CustomerEvent>>,
) -> bool {
    if current_version > 0 {
        CustomerState::replay(history) == Some(state)
    } else {
        exists|registration: CustomerEvent| #[trigger]
            CustomerState::born(&registration) == Some(state)
    }
}

/// Whether `envelope` wraps `event` for `aggregate_id` and
/// `correlation_id`: it is tagged with the event's tag, is at schema
/// version 1, and names neither cause nor user.
pub open spec fn wraps(
    envelope: EventEnvelope<CustomerEvent>,
    event: CustomerEvent,
    aggregate_id: u128,
    correlation_id: u128,
) -> bool {
    &&& envelope.event_data == event
    &&& envelope.aggregate_id == aggregate_id
    &&& envelope.event_type@ == event.tag()
    &&& envelope.event_version == 1
    &&& envelope.correlation_id == correlation_id
    &&& envelope.causation_id is None
    &&& envelope.user_id is None
}

impl CustomerCommandHandler {
    pub fn new(event_store: EventStore<CustomerEvent>) -> (r: Self)
        ensures
            r.event_store == event_store,
    {
        CustomerCommandHandler { event_store }
    }

    /// Whether `batch` is the append of the one event `event`, wrapped for
    /// `aggregate_id` and `correlation_id`, on top of `version` and with its
    /// outbox row.
    pub open spec fn carried_out<F: Fn(&CustomerEvent) -> Result<String, String>>(
        &self,
        batch: AppendBatch,
        event: CustomerEvent,
        version: i64,
        aggregate_id: u128,
        correlation_id: u128,
        serialize: F,
    ) -> bool {
        exists|envelope: EventEnvelope<CustomerEvent>| #[trigger]
            wraps(envelope, event, aggregate_id, correlation_id) && self.event_store.prepared(
                batch,
                aggregate_id,
                version,
                seq![envelope],
                true,
                serialize,
            )
    }

    /// Whether `serialize` can have refused `event`, wrapped for
    /// `aggregate_id` and `correlation_id`, for `reason`.
    pub open spec fn refused<F: Fn(&CustomerEvent) -> Result<String, String>>(
        &self,
        event: CustomerEvent,
        aggregate_id: u128,
        correlation_id: u128,
        serialize: F,
        reason: String,
    ) -> bool {
        exists|envelope: EventEnvelope<CustomerEvent>| #[trigger]
            wraps(envelope, event, aggregate_id, correlation_id) && refused_one(
                serialize,
                seq![envelope],
                reason,
            )
    }

    /// Handles `command` for the customer `aggregate_id`, of which
    /// `current_version` and `history` were read from the store.
    ///
    /// A customer that exists (its version is above 0) is rebuilt from its
    /// history; one that does not can only be registered. The customer
    /// decides the command, and the event it decides on is wrapped and
    /// appended on top of the customer's version, with its outbox row. A
    /// command that changes nothing gives no event, and the store refuses
    /// the empty append. The batch is not written here: the caller hands it
    /// to the database.
    ///
    /// A command other than a registration for a customer that does not
    /// exist gives `AggregateNotFound`, whatever else holds. The append fails
    /// on serialization only where `serialize` refuses the event.
    pub fn handle<F: Fn(&CustomerEvent) -> Result<String, String>>(
        &self,
        aggregate_id: u128,
        command: CustomerCommand,
        correlation_id: u128,
        current_version: i64,
        history: Vec<EventEnvelope<CustomerEvent>>,
        serialize: F,
    ) -> (r: Result<AppendBatch, CommandError<CustomerError>>)
        requires
            forall|i: int| 0 <= i < history.len() ==> (#[trigger] history[i]).sequence_number < i64::MAX,
            forall|event: &CustomerEvent| call_requires(serialize, (event,)),
        ensures
            match r {
                Ok(batch) => exists|state: CustomerState| #[trigger]
                    is_deciding_state(state, current_version, history@) && state.rejection(&command)
                        is None && state.version == current_version && state.decision(
                        &command,
                    ).len() == 1 && self.carried_out(
                        batch,
                        state.decision(&command)[0],
                        state.version,
                        aggregate_id,
                        correlation_id,
                        serialize,
                    ),
                Err(CommandError::AggregateNotFound(id)) => id == aggregate_id && current_version
                    <= 0 && !(command is RegisterCustomer),
                Err(CommandError::Load(_)) => current_version > 0 && CustomerState::replay(
                    history@,
                ) is None,
                Err(CommandError::Rejected(e)) => exists|state: CustomerState| #[trigger]
                    is_deciding_state(state, current_version, history@) && state.rejection(&command)
                        == Some(e),
                Err(CommandError::Store(e)) => exists|state: CustomerState| #[trigger]
                    is_deciding_state(state, current_version, history@) && state.rejection(&command)
                        is None && match e {
                        StoreError::EmptyEvents => state.decision(&command).len() == 0,
                        StoreError::ConcurrencyConflict { expected, actual } => expected
                            == state.version && actual == current_version && expected != actual,
                        StoreError::Serialization(reason) => state.version == current_version
                            && state.decision(&command).len() == 1 && self.refused(
                            state.decision(&command)[0],
                            aggregate_id,
                            correlation_id,
                            serialize,
                            reason,
                        ),
                        _ => false,
                    },
            },
            r matches Ok(batch) ==> batch.well_sequenced() && batch.mirrored(true),
            current_version <= 0 && !(command is RegisterCustomer) ==> (r matches Err(
                CommandError::AggregateNotFound(id),
            ) && id == aggregate_id),
    {
        let exists = self.event_store.aggregate_exists(current_version);
        let aggregate = if exists {
            match self.event_store.load_aggregate::<CustomerAggregate>(aggregate_id, history) {
                Ok(aggregate) => aggregate,
                Err(e) => {
                    return Err(CommandError::Load(e));
                },
            }
        } else {
            match &command {
                CustomerCommand::RegisterCustomer { .. } => {
                    // A customer to validate against.
                    let event = CustomerEvent::Registered(
                        CustomerRegistered {
                            email: Email::new("temp@example.com"),
                            first_name: String::new(),
                            last_name: String::new(),
                            phone: None,
                        },
                    );
                    match CustomerAggregate::apply_first_event(&event) {
                        Ok(aggregate) => {
                            assert(CustomerState::born(&event) == Some(aggregate@));
                            aggregate
                        },
                        Err(e) => {
                            return Err(CommandError::Rejected(e));
                        },
                    }
                },
                _ => {
                    return Err(CommandError::AggregateNotFound(aggregate_id));
                },
            }
        };
        let expected_version = aggregate.version();
        let ghost state = aggregate@;
        assert(is_deciding_state(state, current_version, history@));
        let domain_events = match aggregate.handle_command(&command) {
            Ok(events) => events,
            Err(e) => {
                return Err(CommandError::Rejected(e));
            },
        };
        let mut envelopes: Vec<EventEnvelope<CustomerEvent>> = Vec::new();
        let ghost mut wrapped: Seq<EventEnvelope<CustomerEvent>> = Seq::empty();
        if domain_events.len() > 0 {
            let event = domain_events[0].clone();
            let envelope = EventEnvelope::new(
                aggregate_id,
                expected_version + 1,
                event.type_tag().to_owned(),
                event,
                correlation_id,
            );
            proof {
                wrapped = seq![envelope];
            }
            envelopes.push(envelope);
        }
        assert(envelopes@ =~= wrapped);
        match self.event_store.append_events(
            aggregate_id,
            expected_version,
            current_version,
            envelopes,
            true,
            serialize,
        ) {
            Ok(batch) => {
                assert(wraps(wrapped[0], state.decision(&command)[0], aggregate_id, correlation_id));
                assert(wrapped =~= seq![wrapped[0]]);
                Ok(batch)
            },
            Err(e) => {
                proof {
                    if wrapped.len() == 1 {
                        assert(wraps(
                            wrapped[0],
                            state.decision(&command)[0],
                            aggregate_id,
                            correlation_id,
                        ));
                        assert(wrapped =~= seq![wrapped[0]]);
                    }
                }
                Err(CommandError::Store(e))
            },
        }
    }
}

} // verus!
