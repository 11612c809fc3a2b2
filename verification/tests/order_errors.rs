use event_outbox::domain::order::{OrderError, OrderStatus};

#[test]
fn errors_test_error_display() {
    let err = OrderError::AlreadyCancelled;
    assert_eq!(err.to_string(), "Order is already cancelled");

    let err = OrderError::AlreadyConfirmed;
    assert_eq!(err.to_string(), "Order is already confirmed");

    let err = OrderError::NotConfirmed;
    assert_eq!(err.to_string(), "Order must be confirmed before shipping");

    let err = OrderError::NotShipped;
    assert_eq!(err.to_string(), "Order must be shipped before delivery");

    let err = OrderError::EmptyItems;
    assert_eq!(err.to_string(), "Order items cannot be empty");

    let err = OrderError::InvalidQuantity(0);
    assert_eq!(err.to_string(), "Invalid item quantity: 0");

    let err = OrderError::NotInitialized;
    assert_eq!(err.to_string(), "Aggregate not initialized");
}

#[test]
fn test_invalid_status_transition_error() {
    let err = OrderError::InvalidStatusTransition(OrderStatus::Confirmed);
    assert!(err.to_string().contains("Confirmed"));
}

#[test]
fn errors_test_error_debug() {
    let err = OrderError::InvalidQuantity(-5);
    let debug_str = format!("{:?}", err);
    assert!(debug_str.contains("InvalidQuantity"));
}

#[test]
fn order_error_messages_are_exact() {
    assert_eq!(OrderError::InvalidQuantity(-5).to_string(), "Invalid item quantity: -5");
    assert_eq!(
        OrderError::InvalidQuantity(i32::MIN).to_string(),
        "Invalid item quantity: -2147483648"
    );
    assert_eq!(OrderError::InvalidQuantity(1203).to_string(), "Invalid item quantity: 1203");
    assert_eq!(
        OrderError::InvalidStatusTransition(OrderStatus::Delivered).to_string(),
        "Cannot modify order in status: Delivered"
    );
    for (status, name) in [
        (OrderStatus::Created, "Created"),
        (OrderStatus::Confirmed, "Confirmed"),
        (OrderStatus::Shipped, "Shipped"),
        (OrderStatus::Delivered, "Delivered"),
        (OrderStatus::Cancelled, "Cancelled"),
    ] {
        assert_eq!(status.as_str(), name);
        assert_eq!(format!("{:?}", status), name);
    }
}
