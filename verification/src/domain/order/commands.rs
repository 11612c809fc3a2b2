use vstd::prelude::*;

use super::value_objects::OrderItem;

verus! {

/// What a caller can ask of an order.
#[allow(inconsistent_fields)]
#[derive(Debug, Clone)]
pub enum OrderCommand {
    CreateOrder { order_id: u128, customer_id: u128, items: Vec<OrderItem> },
    UpdateItems { items: Vec<OrderItem>, reason: Option<String> },
    ConfirmOrder,
    ShipOrder { tracking_number: String, carrier: String },
    DeliverOrder { signature: Option<String> },
    CancelOrder { reason: Option<String>, cancelled_by: Option<u128> },
}

} // verus!
