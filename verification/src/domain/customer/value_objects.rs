use vstd::prelude::*;

verus! {

/// Customer email address.
#[derive(Debug, PartialEq)]
pub struct Email(pub String);

impl Email {
    pub fn new(email: &str) -> (r: Self)
        ensures
            r.0@ == email@,
    {
        Email(email.to_owned())
    }

    pub fn as_str(&self) -> (r: &str)
        ensures
            r@ == self.0@,
    {
        self.0.as_str()
    }
}

impl Clone for Email {
    fn clone(&self) -> (r: Self)
        ensures
            r == *self,
    {
        Email(self.0.clone())
    }
}

/// Customer phone number.
#[derive(Debug, PartialEq)]
pub struct PhoneNumber(pub String);

impl PhoneNumber {
    pub fn new(phone: &str) -> (r: Self)
        ensures
            r.0@ == phone@,
    {
        PhoneNumber(phone.to_owned())
    }

    pub fn as_str(&self) -> (r: &str)
        ensures
            r@ == self.0@,
    {
        self.0.as_str()
    }
}

impl Clone for PhoneNumber {
    fn clone(&self) -> (r: Self)
        ensures
            r == *self,
    {
        PhoneNumber(self.0.clone())
    }
}

/// Customer address.
#[derive(Debug, PartialEq)]
pub struct Address {
    pub street: String,
    pub city: String,
    pub state: String,
    pub postal_code: String,
    pub country: String,
}

impl Clone for Address {
    fn clone(&self) -> (r: Self)
        ensures
            r == *self,
    {
        Address {
            street: self.street.clone(),
            city: self.city.clone(),
            state: self.state.clone(),
            postal_code: self.postal_code.clone(),
            country: self.country.clone(),
        }
    }
}

/// Customer status in the system.
#[derive(Debug, Clone, Copy, PartialEq, Eq, Structural)]
pub enum CustomerStatus {
    Active,
    Suspended,
    Deactivated,
}

impl CustomerStatus {
    /// The variant's name, as `Debug` prints it.
    pub open spec fn name(self) -> Seq<char> {
        match self {
            CustomerStatus::Active => "Active"@,
            CustomerStatus::Suspended => "Suspended"@,
            CustomerStatus::Deactivated => "Deactivated"@,
        }
    }
}

/// Customer tier for loyalty and pricing, lowest first.
#[derive(Debug, Clone, Copy, PartialEq, Eq, Structural)]
pub enum CustomerTier {
    Bronze,
    Silver,
    Gold,
    Platinum,
}

impl CustomerTier {
    /// The tier's rank: Bronze is 0, Platinum is 3.
    pub open spec fn spec_level(self) -> int {
        match self {
            CustomerTier::Bronze => 0,
            CustomerTier::Silver => 1,
            CustomerTier::Gold => 2,
            CustomerTier::Platinum => 3,
        }
    }

    pub fn level(&self) -> (r: u8)
        ensures
            r == self.spec_level(),
    {
        match self {
            CustomerTier::Bronze => 0,
            CustomerTier::Silver => 1,
            CustomerTier::Gold => 2,
            CustomerTier::Platinum => 3,
        }
    }
}

#[derive(Debug, Clone, Copy, PartialEq, Eq, Structural)]
pub enum PaymentMethodType {
    CreditCard,
    DebitCard,
    BankAccount,
    DigitalWallet,
}

/// Payment method information.
#[derive(Debug, PartialEq)]
pub struct PaymentMethod {
    pub id: u128,
    pub method_type: PaymentMethodType,
    pub last_four: String,
    pub is_default: bool,
}

impl Clone for PaymentMethod {
    fn clone(&self) -> (r: Self)
        ensures
            r == *self,
    {
        PaymentMethod {
            id: self.id,
            method_type: self.method_type,
            last_four: self.last_four.clone(),
            is_default: self.is_default,
        }
    }
}

} // verus!
