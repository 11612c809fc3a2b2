use vstd::prelude::*;

use super::value_objects::{Address, CustomerTier, Email, PaymentMethod, PhoneNumber};

verus! {

/// What a caller can ask of a customer.
#[allow(inconsistent_fields)]
#[derive(Debug, Clone)]
pub enum CustomerCommand {
    RegisterCustomer {
        customer_id: u128,
        email: Email,
        first_name: String,
        last_name: String,
        phone: Option<PhoneNumber>,
    },
    UpdateProfile { first_name: Option<String>, last_name: Option<String>, phone: Option<PhoneNumber> },
    ChangeEmail { new_email: Email },
    ChangePhone { new_phone: PhoneNumber },
    AddAddress { address_id: u128, address: Address, set_as_default: bool },
    UpdateAddress { address_id: u128, address: Address },
    RemoveAddress { address_id: u128 },
    AddPaymentMethod { payment_method: PaymentMethod },
    RemovePaymentMethod { payment_method_id: u128 },
    UpgradeTier { new_tier: CustomerTier },
    SuspendCustomer { reason: String },
    ReactivateCustomer { notes: Option<String> },
    DeactivateCustomer { reason: String },
}

} // verus!
