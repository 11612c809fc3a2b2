use vstd::prelude::*;

use crate::domain::customer::events::clone_opt_string;
use crate::event_sourcing::base::event::DomainEvent;
use crate::platform::Timestamp;

use super::value_objects::OrderItem;

verus! {

/// The first event of an order's life.
#[derive(Debug)]
pub struct OrderCreated {
    pub customer_id: u128,
    pub items: Vec<OrderItem>,
}

/// The lines of the order were replaced.
#[derive(Debug)]
pub struct OrderItemsUpdated {
    pub items: Vec<OrderItem>,
    pub reason: Option<String>,
}

/// The order was called off.
#[derive(Debug)]
pub struct OrderCancelled {
    pub reason: Option<String>,
    pub cancelled_by: Option<u128>,
}

/// The order was accepted for fulfilment.
#[derive(Debug, Clone, Copy)]
pub struct OrderConfirmed {
    pub confirmed_at: Timestamp,
}

/// The order left for the customer.
#[derive(Debug)]
pub struct OrderShipped {
    pub tracking_number: String,
    pub carrier: String,
    pub shipped_at: Timestamp,
}

/// The order reached the customer.
#[derive(Debug)]
pub struct OrderDelivered {
    pub delivered_at: Timestamp,
    pub signature: Option<String>,
}

/// Everything that can happen to an order.
#[derive(Debug)]
pub enum OrderEvent {
    Created(OrderCreated),
    ItemsUpdated(OrderItemsUpdated),
    Confirmed(OrderConfirmed),
    Shipped(OrderShipped),
    Delivered(OrderDelivered),
    Cancelled(OrderCancelled),
}

/// What an order event says, with its lines as a sequence.
pub enum OrderFact {
    Created { customer_id: u128, items: Seq<OrderItem> },
    ItemsUpdated { items: Seq<OrderItem>, reason: Option<String> },
    Confirmed { confirmed_at: Timestamp },
    Shipped { tracking_number: String, carrier: String, shipped_at: Timestamp },
    Delivered { delivered_at: Timestamp, signature: Option<String> },
    Cancelled { reason: Option<String>, cancelled_by: Option<u128> },
}

impl View for OrderEvent {
    type V = OrderFact;

    open spec fn view(&self) -> OrderFact {
        match self {
            OrderEvent::Created(e) => OrderFact::Created {
                customer_id: e.customer_id,
                items: e.items@,
            },
            OrderEvent::ItemsUpdated(e) => OrderFact::ItemsUpdated {
                items: e.items@,
                reason: e.reason,
            },
            OrderEvent::Confirmed(e) => OrderFact::Confirmed { confirmed_at: e.confirmed_at },
            OrderEvent::Shipped(e) => OrderFact::Shipped {
                tracking_number: e.tracking_number,
                carrier: e.carrier,
                shipped_at: e.shipped_at,
            },
            OrderEvent::Delivered(e) => OrderFact::Delivered {
                delivered_at: e.delivered_at,
                signature: e.signature,
            },
            OrderEvent::Cancelled(e) => OrderFact::Cancelled {
                reason: e.reason,
                cancelled_by: e.cancelled_by,
            },
        }
    }
}

impl OrderFact {
    /// The tag under which the event is stored and published.
    pub open spec fn tag(self) -> Seq<char> {
        match self {
            OrderFact::Created { .. } => "OrderCreated"@,
            OrderFact::ItemsUpdated { .. } => "OrderItemsUpdated"@,
            OrderFact::Confirmed { .. } => "OrderConfirmed"@,
            OrderFact::Shipped { .. } => "OrderShipped"@,
            OrderFact::Delivered { .. } => "OrderDelivered"@,
            OrderFact::Cancelled { .. } => "OrderCancelled"@,
        }
    }
}

impl Clone for OrderEvent {
    fn clone(&self) -> (r: Self)
        ensures
            r@ == self@,
    {
        match self {
            OrderEvent::Created(e) => OrderEvent::Created(
                OrderCreated { customer_id: e.customer_id, items: e.items.clone() },
            ),
            OrderEvent::ItemsUpdated(e) => OrderEvent::ItemsUpdated(
                OrderItemsUpdated { items: e.items.clone(), reason: clone_opt_string(&e.reason) },
            ),
            OrderEvent::Confirmed(e) => OrderEvent::Confirmed(*e),
            OrderEvent::Shipped(e) => OrderEvent::Shipped(
                OrderShipped {
                    tracking_number: e.tracking_number.clone(),
                    carrier: e.carrier.clone(),
                    shipped_at: e.shipped_at,
                },
            ),
            OrderEvent::Delivered(e) => OrderEvent::Delivered(
                OrderDelivered {
                    delivered_at: e.delivered_at,
                    signature: clone_opt_string(&e.signature),
                },
            ),
            OrderEvent::Cancelled(e) => OrderEvent::Cancelled(
                OrderCancelled { reason: clone_opt_string(&e.reason), cancelled_by: e.cancelled_by },
            ),
        }
    }
}

impl Clone for OrderCreated {
    fn clone(&self) -> (r: Self)
        ensures
            r.customer_id == self.customer_id,
            r.items@ == self.items@,
    {
        OrderCreated { customer_id: self.customer_id, items: self.items.clone() }
    }
}

impl Clone for OrderItemsUpdated {
    fn clone(&self) -> (r: Self)
        ensures
            r.items@ == self.items@,
            r.reason == self.reason,
    {
        OrderItemsUpdated { items: self.items.clone(), reason: clone_opt_string(&self.reason) }
    }
}

impl Clone for OrderCancelled {
    fn clone(&self) -> (r: Self)
        ensures
            r == *self,
    {
        OrderCancelled { reason: clone_opt_string(&self.reason), cancelled_by: self.cancelled_by }
    }
}

impl Clone for OrderShipped {
    fn clone(&self) -> (r: Self)
        ensures
            r == *self,
    {
        OrderShipped {
            tracking_number: self.tracking_number.clone(),
            carrier: self.carrier.clone(),
            shipped_at: self.shipped_at,
        }
    }
}

impl Clone for OrderDelivered {
    fn clone(&self) -> (r: Self)
        ensures
            r == *self,
    {
        OrderDelivered {
            delivered_at: self.delivered_at,
            signature: clone_opt_string(&self.signature),
        }
    }
}

impl OrderEvent {
    /// The tag of this event, as text.
    pub fn type_tag(&self) -> (r: &'static str)
        ensures
            r@ == self@.tag(),
    {
        match self {
            OrderEvent::Created(_) => "OrderCreated",
            OrderEvent::ItemsUpdated(_) => "OrderItemsUpdated",
            OrderEvent::Confirmed(_) => "OrderConfirmed",
            OrderEvent::Shipped(_) => "OrderShipped",
            OrderEvent::Delivered(_) => "OrderDelivered",
            OrderEvent::Cancelled(_) => "OrderCancelled",
        }
    }
}

impl DomainEvent for OrderEvent {
    fn event_type() -> (r: &'static str)
        ensures
            r@ == "OrderEvent"@,
    {
        "OrderEvent"
    }
}

impl DomainEvent for OrderCreated {
    fn event_type() -> (r: &'static str)
        ensures
            r@ == "OrderCreated"@,
    {
        "OrderCreated"
    }

    fn event_version() -> (r: i32)
        ensures
            r == 1,
    {
        1
    }
}

impl DomainEvent for OrderItemsUpdated {
    fn event_type() -> (r: &'static str)
        ensures
            r@ == "OrderItemsUpdated"@,
    {
        "OrderItemsUpdated"
    }

    fn event_version() -> (r: i32)
        ensures
            r == 1,
    {
        1
    }
}

impl DomainEvent for OrderCancelled {
    fn event_type() -> (r: &'static str)
        ensures
            r@ == "OrderCancelled"@,
    {
        "OrderCancelled"
    }

    fn event_version() -> (r: i32)
        ensures
            r == 1,
    {
        1
    }
}

impl DomainEvent for OrderConfirmed {
    fn event_type() -> (r: &'static str)
        ensures
            r@ == "OrderConfirmed"@,
    {
        "OrderConfirmed"
    }

    fn event_version() -> (r: i32)
        ensures
            r == 1,
    {
        1
    }
}

impl DomainEvent for OrderShipped {
    fn event_type() -> (r: &'static str)
        ensures
            r@ == "OrderShipped"@,
    {
        "OrderShipped"
    }

    fn event_version() -> (r: i32)
        ensures
            r == 1,
    {
        1
    }
}

impl DomainEvent for OrderDelivered {
    fn event_type() -> (r: &'static str)
        ensures
            r@ == "OrderDelivered"@,
    {
        "OrderDelivered"
    }

    fn event_version() -> (r: i32)
        ensures
            r == 1,
    {
        1
    }
}

} // verus!
