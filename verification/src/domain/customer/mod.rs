//! The customer aggregate.

pub mod aggregate;
pub mod command_handler;
pub mod commands;
pub mod errors;
pub mod events;
pub mod value_objects;

pub use aggregate::{CustomerAggregate, CustomerState};
pub use command_handler::CustomerCommandHandler;
pub use commands::CustomerCommand;
pub use errors::CustomerError;
pub use events::{
    CustomerAddressAdded, CustomerAddressRemoved, CustomerAddressUpdated, CustomerDeactivated,
    CustomerEmailChanged, CustomerEvent, CustomerPaymentMethodAdded, CustomerPaymentMethodRemoved,
    CustomerPhoneChanged, CustomerProfileUpdated, CustomerReactivated, CustomerRegistered,
    CustomerSuspended, CustomerTierUpgraded,
};
pub use value_objects::{
    Address, CustomerStatus, CustomerTier, Email, PaymentMethod, PaymentMethodType, PhoneNumber,
};
