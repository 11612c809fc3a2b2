use vstd::prelude::*;

use crate::event_sourcing::base::event::DomainEvent;

use super::value_objects::{Address, CustomerTier, Email, PaymentMethod, PhoneNumber};

verus! {

#[derive(Debug)]
pub struct CustomerRegistered {
    pub email: Email,
    pub first_name: String,
    pub last_name: String,
    pub phone: Option<PhoneNumber>,
}

#[derive(Debug)]
pub struct CustomerProfileUpdated {
    pub first_name: Option<String>,
    pub last_name: Option<String>,
    pub phone: Option<PhoneNumber>,
}

#[derive(Debug)]
pub struct CustomerEmailChanged {
    pub old_email: Email,
    pub new_email: Email,
}

#[derive(Debug)]
pub struct CustomerPhoneChanged {
    pub old_phone: Option<PhoneNumber>,
    pub new_phone: PhoneNumber,
}

#[derive(Debug)]
pub struct CustomerAddressAdded {
    pub address_id: u128,
    pub address: Address,
    pub is_default: bool,
}

#[derive(Debug)]
pub struct CustomerAddressUpdated {
    pub address_id: u128,
    pub address: Address,
}

#[derive(Debug, Clone, Copy)]
pub struct CustomerAddressRemoved {
    pub address_id: u128,
}

#[derive(Debug)]
pub struct CustomerPaymentMethodAdded {
    pub payment_method: PaymentMethod,
}

#[derive(Debug, Clone, Copy)]
pub struct CustomerPaymentMethodRemoved {
    pub payment_method_id: u128,
}

#[derive(Debug, Clone, Copy)]
pub struct CustomerTierUpgraded {
    pub old_tier: CustomerTier,
    pub new_tier: CustomerTier,
}

#[derive(Debug)]
pub struct CustomerSuspended {
    pub reason: String,
}

#[derive(Debug)]
pub struct CustomerReactivated {
    pub notes: Option<String>,
}

#[derive(Debug)]
pub struct CustomerDeactivated {
    pub reason: String,
}

/// Everything that can happen to a customer.
#[derive(Debug)]
pub enum CustomerEvent {
    Registered(CustomerRegistered),
    ProfileUpdated(CustomerProfileUpdated),
    EmailChanged(CustomerEmailChanged),
    PhoneChanged(CustomerPhoneChanged),
    AddressAdded(CustomerAddressAdded),
    AddressUpdated(CustomerAddressUpdated),
    AddressRemoved(CustomerAddressRemoved),
    PaymentMethodAdded(CustomerPaymentMethodAdded),
    PaymentMethodRemoved(CustomerPaymentMethodRemoved),
    TierUpgraded(CustomerTierUpgraded),
    Suspended(CustomerSuspended),
    Reactivated(CustomerReactivated),
    Deactivated(CustomerDeactivated),
}

/// A copy of an optional string, equal to it.
pub fn clone_opt_string(s: &Option<String>) -> (r: Option<String>)
    ensures
        r == *s,
{
    match s {
        Some(v) => Some(v.clone()),
        None => None,
    }
}

/// A copy of an optional phone number, equal to it.
pub fn clone_opt_phone(p: &Option<PhoneNumber>) -> (r: Option<PhoneNumber>)
    ensures
        r == *p,
{
    match p {
        Some(v) => Some(v.clone()),
        None => None,
    }
}

impl Clone for CustomerRegistered {
    fn clone(&self) -> (r: Self)
        ensures
            r == *self,
    {
        CustomerRegistered {
            email: self.email.clone(),
            first_name: self.first_name.clone(),
            last_name: self.last_name.clone(),
            phone: clone_opt_phone(&self.phone),
        }
    }
}

impl Clone for CustomerProfileUpdated {
    fn clone(&self) -> (r: Self)
        ensures
            r == *self,
    {
        CustomerProfileUpdated {
            first_name: clone_opt_string(&self.first_name),
            last_name: clone_opt_string(&self.last_name),
            phone: clone_opt_phone(&self.phone),
        }
    }
}

impl Clone for CustomerEmailChanged {
    fn clone(&self) -> (r: Self)
        ensures
            r == *self,
    {
        CustomerEmailChanged { old_email: self.old_email.clone(), new_email: self.new_email.clone() }
    }
}

impl Clone for CustomerPhoneChanged {
    fn clone(&self) -> (r: Self)
        ensures
            r == *self,
    {
        CustomerPhoneChanged {
            old_phone: clone_opt_phone(&self.old_phone),
            new_phone: self.new_phone.clone(),
        }
    }
}

impl Clone for CustomerAddressAdded {
    fn clone(&self) -> (r: Self)
        ensures
            r == *self,
    {
        CustomerAddressAdded {
            address_id: self.address_id,
            address: self.address.clone(),
            is_default: self.is_default,
        }
    }
}

impl Clone for CustomerAddressUpdated {
    fn clone(&self) -> (r: Self)
        ensures
            r == *self,
    {
        CustomerAddressUpdated { address_id: self.address_id, address: self.address.clone() }
    }
}

impl Clone for CustomerPaymentMethodAdded {
    fn clone(&self) -> (r: Self)
        ensures
            r == *self,
    {
        CustomerPaymentMethodAdded { payment_method: self.payment_method.clone() }
    }
}

impl Clone for CustomerSuspended {
    fn clone(&self) -> (r: Self)
        ensures
            r == *self,
    {
        CustomerSuspended { reason: self.reason.clone() }
    }
}

impl Clone for CustomerReactivated {
    fn clone(&self) -> (r: Self)
        ensures
            r == *self,
    {
        CustomerReactivated { notes: clone_opt_string(&self.notes) }
    }
}

impl Clone for CustomerDeactivated {
    fn clone(&self) -> (r: Self)
        ensures
            r == *self,
    {
        CustomerDeactivated { reason: self.reason.clone() }
    }
}

impl Clone for CustomerEvent {
    fn clone(&self) -> (r: Self)
        ensures
            r == *self,
    {
        match self {
            CustomerEvent::Registered(e) => CustomerEvent::Registered(e.clone()),
            CustomerEvent::ProfileUpdated(e) => CustomerEvent::ProfileUpdated(e.clone()),
            CustomerEvent::EmailChanged(e) => CustomerEvent::EmailChanged(e.clone()),
            CustomerEvent::PhoneChanged(e) => CustomerEvent::PhoneChanged(e.clone()),
            CustomerEvent::AddressAdded(e) => CustomerEvent::AddressAdded(e.clone()),
            CustomerEvent::AddressUpdated(e) => CustomerEvent::AddressUpdated(e.clone()),
            CustomerEvent::AddressRemoved(e) => CustomerEvent::AddressRemoved(*e),
            CustomerEvent::PaymentMethodAdded(e) => CustomerEvent::PaymentMethodAdded(e.clone()),
            CustomerEvent::PaymentMethodRemoved(e) => CustomerEvent::PaymentMethodRemoved(*e),
            CustomerEvent::TierUpgraded(e) => CustomerEvent::TierUpgraded(*e),
            CustomerEvent::Suspended(e) => CustomerEvent::Suspended(e.clone()),
            CustomerEvent::Reactivated(e) => CustomerEvent::Reactivated(e.clone()),
            CustomerEvent::Deactivated(e) => CustomerEvent::Deactivated(e.clone()),
        }
    }
}

impl CustomerEvent {
    /// The tag under which the event is stored and published.
    pub open spec fn tag(&self) -> Seq<char> {
        match self {
            CustomerEvent::Registered(_) => "CustomerRegistered"@,
            CustomerEvent::ProfileUpdated(_) => "CustomerProfileUpdated"@,
            CustomerEvent::EmailChanged(_) => "CustomerEmailChanged"@,
            CustomerEvent::PhoneChanged(_) => "CustomerPhoneChanged"@,
            CustomerEvent::AddressAdded(_) => "CustomerAddressAdded"@,
            CustomerEvent::AddressUpdated(_) => "CustomerAddressUpdated"@,
            CustomerEvent::AddressRemoved(_) => "CustomerAddressRemoved"@,
            CustomerEvent::PaymentMethodAdded(_) => "CustomerPaymentMethodAdded"@,
            CustomerEvent::PaymentMethodRemoved(_) => "CustomerPaymentMethodRemoved"@,
            CustomerEvent::TierUpgraded(_) => "CustomerTierUpgraded"@,
            CustomerEvent::Suspended(_) => "CustomerSuspended"@,
            CustomerEvent::Reactivated(_) => "CustomerReactivated"@,
            CustomerEvent::Deactivated(_) => "CustomerDeactivated"@,
        }
    }

    /// The tag of this event, as text.
    pub fn type_tag(&self) -> (r: &'static str)
        ensures
            r@ == self.tag(),
    {
        match self {
            CustomerEvent::Registered(_) => "CustomerRegistered",
            CustomerEvent::ProfileUpdated(_) => "CustomerProfileUpdated",
            CustomerEvent::EmailChanged(_) => "CustomerEmailChanged",
            CustomerEvent::PhoneChanged(_) => "CustomerPhoneChanged",
            CustomerEvent::AddressAdded(_) => "CustomerAddressAdded",
            CustomerEvent::AddressUpdated(_) => "CustomerAddressUpdated",
            CustomerEvent::AddressRemoved(_) => "CustomerAddressRemoved",
            CustomerEvent::PaymentMethodAdded(_) => "CustomerPaymentMethodAdded",
            CustomerEvent::PaymentMethodRemoved(_) => "CustomerPaymentMethodRemoved",
            CustomerEvent::TierUpgraded(_) => "CustomerTierUpgraded",
            CustomerEvent::Suspended(_) => "CustomerSuspended",
            CustomerEvent::Reactivated(_) => "CustomerReactivated",
            CustomerEvent::Deactivated(_) => "CustomerDeactivated",
        }
    }
}

impl DomainEvent for CustomerEvent {
    fn event_type() -> (r: &'static str)
        ensures
            r@ == "CustomerEvent"@,
    {
        "CustomerEvent"
    }
}

} // verus!
