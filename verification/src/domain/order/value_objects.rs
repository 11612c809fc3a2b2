use vstd::prelude::*;

verus! {

/// One line of an order: a product and how many of it.
#[derive(Clone, Copy, Debug, PartialEq, Eq, Structural)]
pub struct OrderItem {
    pub product_id: u128,
    pub quantity: i32,
}

/// Where an order stands in its life.
#[derive(Debug, Clone, Copy, PartialEq, Eq, Structural)]
pub enum OrderStatus {
    Created,
    Confirmed,
    Shipped,
    Delivered,
    Cancelled,
}

impl OrderStatus {
    /// The variant's name, as `Debug` prints it.
    pub open spec fn name(self) -> Seq<char> {
        match self {
            OrderStatus::Created => "Created"@,
            OrderStatus::Confirmed => "Confirmed"@,
            OrderStatus::Shipped => "Shipped"@,
            OrderStatus::Delivered => "Delivered"@,
            OrderStatus::Cancelled => "Cancelled"@,
        }
    }

    /// The variant's name, as text.
    pub fn as_str(&self) -> (r: &'static str)
        ensures
            r@ == self.name(),
    {
        match self {
            OrderStatus::Created => "Created",
            OrderStatus::Confirmed => "Confirmed",
            OrderStatus::Shipped => "Shipped",
            OrderStatus::Delivered => "Delivered",
            OrderStatus::Cancelled => "Cancelled",
        }
    }
}

} // verus!
