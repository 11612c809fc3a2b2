use vstd::prelude::*;

use crate::platform::{decimal_text, int_to_string};

use super::value_objects::OrderStatus;

verus! {

/// A business rule of the order aggregate that a command or event broke.
#[derive(Debug, PartialEq)]
pub enum OrderError {
    AlreadyCancelled,
    AlreadyConfirmed,
    NotConfirmed,
    NotShipped,
    InvalidStatusTransition(OrderStatus),
    EmptyItems,
    InvalidQuantity(i32),
    NotInitialized,
}

impl OrderError {
    /// The message shown for this error.
    pub open spec fn message(&self) -> Seq<char> {
        match self {
            OrderError::AlreadyCancelled => "Order is already cancelled"@,
            OrderError::AlreadyConfirmed => "Order is already confirmed"@,
            OrderError::NotConfirmed => "Order must be confirmed before shipping"@,
            OrderError::NotShipped => "Order must be shipped before delivery"@,
            OrderError::InvalidStatusTransition(status) => "Cannot modify order in status: "@
                + status.name(),
            OrderError::EmptyItems => "Order items cannot be empty"@,
            OrderError::InvalidQuantity(quantity) => "Invalid item quantity: "@ + decimal_text(
                *quantity as int,
            ),
            OrderError::NotInitialized => "Aggregate not initialized"@,
        }
    }

    pub fn to_string(&self) -> (r: String)
        ensures
            r@ == self.message(),
    {
        match self {
            OrderError::AlreadyCancelled => "Order is already cancelled".to_owned(),
            OrderError::AlreadyConfirmed => "Order is already confirmed".to_owned(),
            OrderError::NotConfirmed => "Order must be confirmed before shipping".to_owned(),
            OrderError::NotShipped => "Order must be shipped before delivery".to_owned(),
            OrderError::InvalidStatusTransition(status) => {
                let mut text = "Cannot modify order in status: ".to_owned();
                text.append(status.as_str());
                text
            },
            OrderError::EmptyItems => "Order items cannot be empty".to_owned(),
            OrderError::InvalidQuantity(quantity) => {
                let mut text = "Invalid item quantity: ".to_owned();
                text.append(int_to_string(*quantity as i64).as_str());
                text
            },
            OrderError::NotInitialized => "Aggregate not initialized".to_owned(),
        }
    }
}

} // verus!
