use vstd::prelude::*;

use crate::domain::customer::events::clone_opt_string;
use crate::event_sourcing::base::aggregate::{AggregateRoot, LoadError};
use crate::event_sourcing::base::event::EventEnvelope;
use crate::platform::{new_uuid, now, Timestamp};

use super::commands::OrderCommand;
use super::errors::OrderError;
use super::events::{
    OrderCancelled, OrderConfirmed, OrderCreated, OrderDelivered, OrderEvent, OrderFact,
    OrderItemsUpdated, OrderShipped,
};
use super::value_objects::{OrderItem, OrderStatus};

verus! {

/// An order, as rebuilt from its events.
#[derive(Debug, Clone)]
pub struct OrderAggregate {
    pub id: u128,
    pub version: i64,
    pub customer_id: u128,
    pub items: Vec<OrderItem>,
    pub status: OrderStatus,
    /// When this value was built from its first event.
    pub created_at: Timestamp,
    /// When an event was last folded into this value.
    pub updated_at: Timestamp,
    pub tracking_number: Option<String>,
    pub carrier: Option<String>,
    pub cancelled_reason: Option<String>,
}

/// What the events say of an order: everything but the identity, which
/// the envelopes name and no event holds, and the two instants, which are
/// read off the clock.
#[verifier::ext_equal]
pub struct OrderState {
    pub version: i64,
    pub customer_id: u128,
    pub items: Seq<OrderItem>,
    pub status: OrderStatus,
    pub tracking_number: Option<String>,
    pub carrier: Option<String>,
    pub cancelled_reason: Option<String>,
}

impl View for OrderAggregate {
    type V = OrderState;

    open spec fn view(&self) -> OrderState {
        OrderState {
            version: self.version,
            customer_id: self.customer_id,
            items: self.items@,
            status: self.status,
            tracking_number: self.tracking_number,
            carrier: self.carrier,
            cancelled_reason: self.cancelled_reason,
        }
    }
}

/// The quantity of the first line that is not positive, if there is one.
pub open spec fn first_invalid_quantity(items: Seq<OrderItem>) -> Option<i32>
    decreases items.len(),
{
    if items.len() == 0 {
        None
    } else if items[0].quantity <= 0 {
        Some(items[0].quantity)
    } else {
        first_invalid_quantity(items.drop_first())
    }
}

/// Why `items` cannot be the lines of an order, if they cannot: there is
/// none, or one has a quantity that is not positive.
pub open spec fn items_fault(items: Seq<OrderItem>) -> Option<OrderError> {
    if items.len() == 0 {
        Some(OrderError::EmptyItems)
    } else {
        match first_invalid_quantity(items) {
            Some(quantity) => Some(OrderError::InvalidQuantity(quantity)),
            None => None,
        }
    }
}

impl OrderState {
    /// The state of an order that `event` has just created.
    pub open spec fn born(event: OrderFact) -> Option<OrderState> {
        match event {
            OrderFact::Created { customer_id, items } => Some(
                OrderState {
                    version: 0,
                    customer_id,
                    items,
                    status: OrderStatus::Created,
                    tracking_number: None,
                    carrier: None,
                    cancelled_reason: None,
                },
            ),
            _ => None,
        }
    }

    /// The state after `event`, apart from the version.
    pub open spec fn changed_by(self, event: OrderFact) -> OrderState {
        match event {
            OrderFact::Created { .. } => self,
            OrderFact::ItemsUpdated { items, .. } => OrderState { items, ..self },
            OrderFact::Confirmed { .. } => OrderState { status: OrderStatus::Confirmed, ..self },
            OrderFact::Shipped { tracking_number, carrier, .. } => OrderState {
                status: OrderStatus::Shipped,
                tracking_number: Some(tracking_number),
                carrier: Some(carrier),
                ..self
            },
            OrderFact::Delivered { .. } => OrderState { status: OrderStatus::Delivered, ..self },
            OrderFact::Cancelled { reason, .. } => OrderState {
                status: OrderStatus::Cancelled,
                cancelled_reason: reason,
                ..self
            },
        }
    }

    /// The state after `event` is folded in: its changes, and the next version.
    pub open spec fn apply(self, event: OrderFact) -> OrderState {
        OrderState { version: (self.version + 1) as i64, ..self.changed_by(event) }
    }

    /// The state that a history describes, or `None` where the history is
    /// empty or does not start with a creation. The version is the sequence
    /// number of the last envelope.
    pub open spec fn replay(events: Seq<EventEnvelope<OrderEvent>>) -> Option<OrderState>
        decreases events.len(),
    {
        if events.len() == 0 {
            None
        } else if events.len() == 1 {
            match Self::born(events[0].event_data@) {
                Some(s) => Some(OrderState { version: events[0].sequence_number, ..s }),
                None => None,
            }
        } else {
            match Self::replay(events.drop_last()) {
                Some(s) => Some(
                    OrderState {
                        version: events.last().sequence_number,
                        ..s.changed_by(events.last().event_data@)
                    },
                ),
                None => None,
            }
        }
    }

    /// The rule that `command` breaks in this state, if it breaks one.
    pub open spec fn rejection(self, command: &OrderCommand) -> Option<OrderError> {
        match command {
            OrderCommand::CreateOrder { items, .. } => items_fault(items@),
            OrderCommand::UpdateItems { items, .. } => match self.status {
                OrderStatus::Cancelled => Some(OrderError::AlreadyCancelled),
                OrderStatus::Created => items_fault(items@),
                _ => Some(OrderError::InvalidStatusTransition(self.status)),
            },
            OrderCommand::ConfirmOrder => match self.status {
                OrderStatus::Created => None,
                OrderStatus::Confirmed => Some(OrderError::AlreadyConfirmed),
                _ => Some(OrderError::InvalidStatusTransition(self.status)),
            },
            OrderCommand::ShipOrder { .. } => match self.status {
                OrderStatus::Confirmed => None,
                OrderStatus::Created => Some(OrderError::NotConfirmed),
                _ => Some(OrderError::InvalidStatusTransition(self.status)),
            },
            OrderCommand::DeliverOrder { .. } => match self.status {
                OrderStatus::Shipped => None,
                _ => Some(OrderError::NotShipped),
            },
            OrderCommand::CancelOrder { .. } => match self.status {
                OrderStatus::Cancelled => Some(OrderError::AlreadyCancelled),
                OrderStatus::Delivered => Some(OrderError::InvalidStatusTransition(self.status)),
                _ => None,
            },
        }
    }

    /// The event that `command` gives rise to where no rule refuses it, if
    /// the clock reads `at` when it is decided.
    pub open spec fn decision(self, command: &OrderCommand, at: Timestamp) -> OrderFact {
        match command {
            OrderCommand::CreateOrder { customer_id, items, .. } => OrderFact::Created {
                customer_id: *customer_id,
                items: items@,
            },
            OrderCommand::UpdateItems { items, reason } => OrderFact::ItemsUpdated {
                items: items@,
                reason: *reason,
            },
            OrderCommand::ConfirmOrder => OrderFact::Confirmed { confirmed_at: at },
            OrderCommand::ShipOrder { tracking_number, carrier } => OrderFact::Shipped {
                tracking_number: *tracking_number,
                carrier: *carrier,
                shipped_at: at,
            },
            OrderCommand::DeliverOrder { signature } => OrderFact::Delivered {
                delivered_at: at,
                signature: *signature,
            },
            OrderCommand::CancelOrder { reason, cancelled_by } => OrderFact::Cancelled {
                reason: *reason,
                cancelled_by: *cancelled_by,
            },
        }
    }
}

impl OrderAggregate {
    /// Checks that there is at least one line and that every quantity is
    /// positive; the first line that is not is the one reported.
    fn validate_items(&self, items: &Vec<OrderItem>) -> (r: Result<(), OrderError>)
        ensures
            match r {
                Ok(_) => items_fault(items@) is None,
                Err(e) => items_fault(items@) == Some(e),
            },
    {
        if items.len() == 0 {
            return Err(OrderError::EmptyItems);
        }
        let mut i: usize = 0;
        assert(items@.skip(0) == items@);
        while i < items.len()
            invariant
                i <= items.len(),
                first_invalid_quantity(items@) == first_invalid_quantity(items@.skip(i as int)),
            decreases items.len() - i,
        {
            let ghost rest = items@.skip(i as int);
            assert(rest[0] == items@[i as int]);
            assert(rest.drop_first() == items@.skip(i as int + 1));
            if items[i].quantity <= 0 {
                return Err(OrderError::InvalidQuantity(items[i].quantity));
            }
            i = i + 1;
        }
        Ok(())
    }
}

impl AggregateRoot for OrderAggregate {
    type Event = OrderEvent;

    type Command = OrderCommand;

    type Error = OrderError;

    open spec fn spec_aggregate_id(&self) -> u128 {
        self.id
    }

    open spec fn spec_version(&self) -> i64 {
        self.version
    }

    /// A creation gives an order at version 0; any other event is refused
    /// with `NotInitialized`. The identity is drawn at random, and nothing is
    /// said of it: loading a history replaces it by the identity that the
    /// history names.
    fn apply_first_event(event: &OrderEvent) -> (r: Result<Self, OrderError>)
        ensures
            match r {
                Ok(a) => Some(a@) == OrderState::born(event@),
                Err(e) => OrderState::born(event@) is None && e == OrderError::NotInitialized,
            },
    {
        match event {
            OrderEvent::Created(e) => {
                let at = now();
                let aggregate = OrderAggregate {
                    id: new_uuid(),
                    version: 0,
                    customer_id: e.customer_id,
                    items: e.items.clone(),
                    status: OrderStatus::Created,
                    created_at: at,
                    updated_at: at,
                    tracking_number: None,
                    carrier: None,
                    cancelled_reason: None,
                };
                assert(aggregate@ =~= OrderState::born(event@)->0);
                Ok(aggregate)
            },
            _ => Err(OrderError::NotInitialized),
        }
    }

    /// Never fails: the state becomes `old(self)@.apply(event@)`.
    fn apply_event(&mut self, event: &OrderEvent) -> (r: Result<(), OrderError>)
        ensures
            r is Ok,
            final(self)@ == old(self)@.apply(event@),
            final(self).created_at == old(self).created_at,
    {
        self.updated_at = now();
        match event {
            OrderEvent::Created(_) => {},
            OrderEvent::ItemsUpdated(e) => {
                self.items = e.items.clone();
            },
            OrderEvent::Confirmed(_) => {
                self.status = OrderStatus::Confirmed;
            },
            OrderEvent::Shipped(e) => {
                self.status = OrderStatus::Shipped;
                self.tracking_number = Some(e.tracking_number.clone());
                self.carrier = Some(e.carrier.clone());
            },
            OrderEvent::Delivered(_) => {
                self.status = OrderStatus::Delivered;
            },
            OrderEvent::Cancelled(e) => {
                self.status = OrderStatus::Cancelled;
                self.cancelled_reason = clone_opt_string(&e.reason);
            },
        }
        self.version = self.version + 1;
        assert(self@ =~= old(self)@.apply(event@));
        Ok(())
    }

    /// Refuses `command` with `self@.rejection(command)` where that names a
    /// rule, and otherwise returns the one event of `self@.decision`, stamped
    /// with the time at which it was decided.
    fn handle_command(&self, command: &OrderCommand) -> (r: Result<Vec<OrderEvent>, OrderError>)
        ensures
            match r {
                Ok(events) => self@.rejection(command) is None && events.len() == 1 && exists|
                    at: Timestamp,
                | events[0]@ == self@.decision(command, at),
                Err(e) => self@.rejection(command) == Some(e),
            },
    {
        match command {
            OrderCommand::CreateOrder { customer_id, items, .. } => {
                self.validate_items(items)?;
                let event = OrderEvent::Created(
                    OrderCreated { customer_id: *customer_id, items: items.clone() },
                );
                assert(event@ == self@.decision(command, Timestamp { millis: 0 }));
                Ok(vec![event])
            },
            OrderCommand::UpdateItems { items, reason } => {
                match self.status {
                    OrderStatus::Cancelled => {
                        return Err(OrderError::AlreadyCancelled);
                    },
                    OrderStatus::Confirmed | OrderStatus::Shipped | OrderStatus::Delivered => {
                        return Err(OrderError::InvalidStatusTransition(self.status));
                    },
                    OrderStatus::Created => {},
                }
                self.validate_items(items)?;
                let event = OrderEvent::ItemsUpdated(
                    OrderItemsUpdated { items: items.clone(), reason: clone_opt_string(reason) },
                );
                assert(event@ == self@.decision(command, Timestamp { millis: 0 }));
                Ok(vec![event])
            },
            OrderCommand::ConfirmOrder => {
                match self.status {
                    OrderStatus::Created => {},
                    OrderStatus::Confirmed => {
                        return Err(OrderError::AlreadyConfirmed);
                    },
                    _ => {
                        return Err(OrderError::InvalidStatusTransition(self.status));
                    },
                }
                let at = now();
                let event = OrderEvent::Confirmed(OrderConfirmed { confirmed_at: at });
                assert(event@ == self@.decision(command, at));
                Ok(vec![event])
            },
            OrderCommand::ShipOrder { tracking_number, carrier } => {
                match self.status {
                    OrderStatus::Confirmed => {},
                    OrderStatus::Created => {
                        return Err(OrderError::NotConfirmed);
                    },
                    _ => {
                        return Err(OrderError::InvalidStatusTransition(self.status));
                    },
                }
                let at = now();
                let event = OrderEvent::Shipped(
                    OrderShipped {
                        tracking_number: tracking_number.clone(),
                        carrier: carrier.clone(),
                        shipped_at: at,
                    },
                );
                assert(event@ == self@.decision(command, at));
                Ok(vec![event])
            },
            OrderCommand::DeliverOrder { signature } => {
                match self.status {
                    OrderStatus::Shipped => {},
                    _ => {
                        return Err(OrderError::NotShipped);
                    },
                }
                let at = now();
                let event = OrderEvent::Delivered(
                    OrderDelivered { delivered_at: at, signature: clone_opt_string(signature) },
                );
                assert(event@ == self@.decision(command, at));
                Ok(vec![event])
            },
            OrderCommand::CancelOrder { reason, cancelled_by } => {
                match self.status {
                    OrderStatus::Cancelled => {
                        return Err(OrderError::AlreadyCancelled);
                    },
                    OrderStatus::Delivered => {
                        return Err(OrderError::InvalidStatusTransition(self.status));
                    },
                    _ => {},
                }
                let event = OrderEvent::Cancelled(
                    OrderCancelled { reason: clone_opt_string(reason), cancelled_by: *cancelled_by },
                );
                assert(event@ == self@.decision(command, Timestamp { millis: 0 }));
                Ok(vec![event])
            },
        }
    }

    fn aggregate_id(&self) -> (r: u128) {
        self.id
    }

    fn version(&self) -> (r: i64) {
        self.version
    }

    /// The aggregate's state is `OrderState::replay(events@)` and its
    /// identity the one that the first envelope names. Loading fails on an
    /// empty history and on one that does not start with a creation, and on
    /// nothing else.
    fn load_from_events(events: Vec<EventEnvelope<OrderEvent>>) -> (r: Result<
        Self,
        LoadError<OrderError>,
    >)
        ensures
            match r {
                Ok(a) => Some(a@) == OrderState::replay(events@) && a.id == events[0].aggregate_id,
                Err(LoadError::NoEvents) => events.len() == 0,
                Err(LoadError::FirstEvent(e)) => events.len() > 0 && OrderState::born(
                    events[0].event_data@,
                ) is None && e == OrderError::NotInitialized,
                Err(LoadError::Event(_)) => false,
            },
            r is Err ==> OrderState::replay(events@) is None,
    {
        if events.len() == 0 {
            return Err(LoadError::NoEvents);
        }
        let mut aggregate = match Self::apply_first_event(&events[0].event_data) {
            Ok(a) => a,
            Err(e) => {
                proof {
                    lemma_replay_needs_birth(events@);
                }
                return Err(LoadError::FirstEvent(e));
            },
        };
        aggregate.id = events[0].aggregate_id;
        aggregate.version = events[0].sequence_number;
        assert(Some(aggregate@) == OrderState::replay(events@.take(1))) by {
            assert(events@.take(1)[0] == events@[0]);
            assert(aggregate@ =~= OrderState::replay(events@.take(1))->0);
        }
        let mut i: usize = 1;
        while i < events.len()
            invariant
                1 <= i <= events.len(),
                Some(aggregate@) == OrderState::replay(events@.take(i as int)),
                aggregate.version == events[i - 1].sequence_number,
                aggregate.id == events[0].aggregate_id,
                forall|k: int|
                    0 <= k < events.len() - 1 ==> (#[trigger] events[k]).sequence_number < i64::MAX,
            decreases events.len() - i,
        {
            let _ = aggregate.apply_event(&events[i].event_data);
            aggregate.version = events[i].sequence_number;
            proof {
                let prefix = events@.take(i as int + 1);
                assert(prefix.drop_last() == events@.take(i as int));
                assert(prefix.last() == events@[i as int]);
                assert(aggregate@ =~= OrderState::replay(prefix)->0);
            }
            i = i + 1;
        }
        assert(events@.take(events.len() as int) == events@);
        Ok(aggregate)
    }
}

/// A history whose first event gives no birth describes no order.
pub proof fn lemma_replay_needs_birth(events: Seq<EventEnvelope<OrderEvent>>)
    requires
        events.len() > 0,
        OrderState::born(events[0].event_data@) is None,
    ensures
        OrderState::replay(events) is None,
    decreases events.len(),
{
    if events.len() > 1 {
        assert(events.drop_last()[0] == events[0]);
        lemma_replay_needs_birth(events.drop_last());
    }
}

} // verus!
