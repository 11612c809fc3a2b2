use event_outbox::domain::customer::{CustomerError, CustomerStatus};
use uuid::Uuid;

#[test]
fn test_error_display() {
    let err = CustomerError::AlreadySuspended;
    assert_eq!(err.to_string(), "Customer is already suspended");

    let err = CustomerError::AlreadyDeactivated;
    assert_eq!(err.to_string(), "Customer is already deactivated");

    let err = CustomerError::NotActive;
    assert_eq!(err.to_string(), "Customer must be active to perform this operation");

    let err = CustomerError::NotSuspended;
    assert_eq!(err.to_string(), "Customer must be suspended to reactivate");

    let err = CustomerError::EmptyEmail;
    assert_eq!(err.to_string(), "Email cannot be empty");

    let err = CustomerError::EmptyFirstName;
    assert_eq!(err.to_string(), "First name cannot be empty");

    let err = CustomerError::EmptyLastName;
    assert_eq!(err.to_string(), "Last name cannot be empty");

    let err = CustomerError::TierDowngradeNotAllowed;
    assert_eq!(err.to_string(), "Customer tier cannot be downgraded");

    let err = CustomerError::CannotRemoveDefaultPaymentMethod;
    assert_eq!(err.to_string(), "Cannot remove default payment method");

    let err = CustomerError::NotInitialized;
    assert_eq!(err.to_string(), "Aggregate not initialized");
}

#[test]
fn test_invalid_email_error() {
    let err = CustomerError::InvalidEmail("bad-email".to_string());
    assert!(err.to_string().contains("bad-email"));
    assert!(err.to_string().contains("Invalid email format"));
}

#[test]
fn test_address_not_found_error() {
    let id = Uuid::new_v4();
    let err = CustomerError::AddressNotFound(id.as_u128());
    assert!(err.to_string().contains(&id.to_string()));
}

#[test]
fn test_payment_method_not_found_error() {
    let id = Uuid::new_v4();
    let err = CustomerError::PaymentMethodNotFound(id.as_u128());
    assert!(err.to_string().contains(&id.to_string()));
}

#[test]
fn test_invalid_status_error() {
    let err = CustomerError::InvalidStatus(CustomerStatus::Suspended);
    assert!(err.to_string().contains("Suspended"));
}

#[test]
fn test_error_debug() {
    let err = CustomerError::EmptyEmail;
    let debug_str = format!("{:?}", err);
    assert!(debug_str.contains("EmptyEmail"));
}

#[test]
fn customer_error_messages_are_exact() {
    assert_eq!(
        CustomerError::InvalidEmail("x".to_string()).to_string(),
        "Invalid email format: x"
    );
    assert_eq!(
        CustomerError::InvalidStatus(CustomerStatus::Deactivated).to_string(),
        "Invalid customer status: Deactivated"
    );
    assert_eq!(
        CustomerError::AddressNotFound(0xa1a2a3a4_b1b2_c1c2_d1d2_d3d4d5d6d7d8).to_string(),
        "Address not found: a1a2a3a4-b1b2-c1c2-d1d2-d3d4d5d6d7d8"
    );
    assert_eq!(
        CustomerError::PaymentMethodNotFound(0).to_string(),
        "Payment method not found: 00000000-0000-0000-0000-000000000000"
    );
    assert_eq!(CustomerStatus::Active.as_str(), "Active");
}
