use vstd::prelude::*;

use crate::platform::{uuid_text, uuid_to_string};

use super::value_objects::CustomerStatus;

verus! {

/// A business rule of the customer aggregate that a command or event broke.
#[derive(Debug)]
pub enum CustomerError {
    AlreadySuspended,
    AlreadyDeactivated,
    NotActive,
    NotSuspended,
    InvalidStatus(CustomerStatus),
    EmptyEmail,
    InvalidEmail(String),
    EmptyFirstName,
    EmptyLastName,
    AddressNotFound(u128),
    PaymentMethodNotFound(u128),
    CannotRemoveDefaultPaymentMethod,
    TierDowngradeNotAllowed,
    NotInitialized,
}

impl CustomerStatus {
    /// The variant's name, as text.
    pub fn as_str(&self) -> (r: &'static str)
        ensures
            r@ == self.name(),
    {
        match self {
            CustomerStatus::Active => "Active",
            CustomerStatus::Suspended => "Suspended",
            CustomerStatus::Deactivated => "Deactivated",
        }
    }
}

impl CustomerError {
    /// The message shown for this error.
    pub open spec fn message(&self) -> Seq<char> {
        match self {
            CustomerError::AlreadySuspended => "Customer is already suspended"@,
            CustomerError::AlreadyDeactivated => "Customer is already deactivated"@,
            CustomerError::NotActive => "Customer must be active to perform this operation"@,
            CustomerError::NotSuspended => "Customer must be suspended to reactivate"@,
            CustomerError::InvalidStatus(status) => "Invalid customer status: "@ + status.name(),
            CustomerError::EmptyEmail => "Email cannot be empty"@,
            CustomerError::InvalidEmail(email) => "Invalid email format: "@ + email@,
            CustomerError::EmptyFirstName => "First name cannot be empty"@,
            CustomerError::EmptyLastName => "Last name cannot be empty"@,
            CustomerError::AddressNotFound(id) => "Address not found: "@ + uuid_text(*id),
            CustomerError::PaymentMethodNotFound(id) => "Payment method not found: "@ + uuid_text(
                *id,
            ),
            CustomerError::CannotRemoveDefaultPaymentMethod => "Cannot remove default payment method"@,
            CustomerError::TierDowngradeNotAllowed => "Customer tier cannot be downgraded"@,
            CustomerError::NotInitialized => "Aggregate not initialized"@,
        }
    }

    pub fn to_string(&self) -> (r: String)
        ensures
            r@ == self.message(),
    {
        match self {
            CustomerError::AlreadySuspended => "Customer is already suspended".to_owned(),
            CustomerError::AlreadyDeactivated => "Customer is already deactivated".to_owned(),
            CustomerError::NotActive => "Customer must be active to perform this operation".to_owned(),
            CustomerError::NotSuspended => "Customer must be suspended to reactivate".to_owned(),
            CustomerError::InvalidStatus(status) => {
                let mut text = "Invalid customer status: ".to_owned();
                text.append(status.as_str());
                text
            },
            CustomerError::EmptyEmail => "Email cannot be empty".to_owned(),
            CustomerError::InvalidEmail(email) => {
                let mut text = "Invalid email format: ".to_owned();
                text.append(email.as_str());
                text
            },
            CustomerError::EmptyFirstName => "First name cannot be empty".to_owned(),
            CustomerError::EmptyLastName => "Last name cannot be empty".to_owned(),
            CustomerError::AddressNotFound(id) => {
                let mut text = "Address not found: ".to_owned();
                text.append(uuid_to_string(*id).as_str());
                text
            },
            CustomerError::PaymentMethodNotFound(id) => {
                let mut text = "Payment method not found: ".to_owned();
                text.append(uuid_to_string(*id).as_str());
                text
            },
            CustomerError::CannotRemoveDefaultPaymentMethod => "Cannot remove default payment method".to_owned(),
            CustomerError::TierDowngradeNotAllowed => "Customer tier cannot be downgraded".to_owned(),
            CustomerError::NotInitialized => "Aggregate not initialized".to_owned(),
        }
    }
}

} // verus!
