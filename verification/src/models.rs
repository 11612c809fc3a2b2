//! The order as the first version of the write path knew it: an order row
//! that is written together with an outbox row for the event.

use vstd::prelude::*;

use crate::platform::Timestamp;

verus! {

#[derive(Clone, Copy, Debug, PartialEq, Eq, Structural)]
pub struct OrderItem {
    pub product_id: u128,
    pub quantity: i32,
}

#[derive(Clone, Copy, Debug, PartialEq, Eq, Structural)]
pub enum OrderStatus {
    Created,
    Updated,
    Cancelled,
}

#[derive(Clone, Debug)]
pub struct Order {
    pub id: u128,
    pub customer_id: u128,
    pub items: Vec<OrderItem>,
    pub status: OrderStatus,
}

/// What the outbox needs to know of an event.
pub trait DomainEvent {
    spec fn spec_event_type(&self) -> Seq<char>;

    spec fn spec_aggregate_id(&self) -> u128;

    spec fn spec_timestamp(&self) -> Timestamp;

    fn event_type(&self) -> (r: &str)
        ensures
            r@ == self.spec_event_type(),
    ;

    fn aggregate_id(&self) -> (r: u128)
        ensures
            r == self.spec_aggregate_id(),
    ;

    fn timestamp(&self) -> (r: Timestamp)
        ensures
            r == self.spec_timestamp(),
    ;
}

#[derive(Clone, Debug)]
pub struct OrderCreatedEvent {
    pub order_id: u128,
    pub customer_id: u128,
    pub items: Vec<OrderItem>,
    pub timestamp: Timestamp,
}

impl DomainEvent for OrderCreatedEvent {
    open spec fn spec_event_type(&self) -> Seq<char> {
        "OrderCreated"@
    }

    open spec fn spec_aggregate_id(&self) -> u128 {
        self.order_id
    }

    open spec fn spec_timestamp(&self) -> Timestamp {
        self.timestamp
    }

    fn event_type(&self) -> (r: &str) {
        "OrderCreated"
    }

    fn aggregate_id(&self) -> (r: u128) {
        self.order_id
    }

    fn timestamp(&self) -> (r: Timestamp) {
        self.timestamp
    }
}

#[derive(Clone, Debug)]
pub struct OrderUpdatedEvent {
    pub order_id: u128,
    pub items: Vec<OrderItem>,
    pub timestamp: Timestamp,
}

impl DomainEvent for OrderUpdatedEvent {
    open spec fn spec_event_type(&self) -> Seq<char> {
        "OrderUpdated"@
    }

    open spec fn spec_aggregate_id(&self) -> u128 {
        self.order_id
    }

    open spec fn spec_timestamp(&self) -> Timestamp {
        self.timestamp
    }

    fn event_type(&self) -> (r: &str) {
        "OrderUpdated"
    }

    fn aggregate_id(&self) -> (r: u128) {
        self.order_id
    }

    fn timestamp(&self) -> (r: Timestamp) {
        self.timestamp
    }
}

#[derive(Clone, Debug)]
pub struct OrderCancelledEvent {
    pub order_id: u128,
    pub reason: Option<String>,
    pub timestamp: Timestamp,
}

impl DomainEvent for OrderCancelledEvent {
    open spec fn spec_event_type(&self) -> Seq<char> {
        "OrderCancelled"@
    }

    open spec fn spec_aggregate_id(&self) -> u128 {
        self.order_id
    }

    open spec fn spec_timestamp(&self) -> Timestamp {
        self.timestamp
    }

    fn event_type(&self) -> (r: &str) {
        "OrderCancelled"
    }

    fn aggregate_id(&self) -> (r: u128) {
        self.order_id
    }

    fn timestamp(&self) -> (r: Timestamp) {
        self.timestamp
    }
}

} // verus!
