use event_outbox::domain::customer::{Address, CustomerTier, Email, PhoneNumber};
use event_outbox::domain::order::OrderStatus;

#[test]
fn test_email_creation() {
    let email = Email::new("test@example.com");
    assert_eq!(email.as_str(), "test@example.com");
}

#[test]
fn test_email_equality() {
    let email1 = Email::new("test@example.com");
    let email2 = Email::new("test@example.com");
    let email3 = Email::new("other@example.com");

    assert_eq!(email1, email2);
    assert_ne!(email1, email3);
}

#[test]
fn test_phone_number_creation() {
    let phone = PhoneNumber::new("555-1234");
    assert_eq!(phone.as_str(), "555-1234");
}

#[test]
fn test_address_creation() {
    let address = Address {
        street: "123 Main St".to_string(),
        city: "Anytown".to_string(),
        state: "CA".to_string(),
        postal_code: "12345".to_string(),
        country: "USA".to_string(),
    };

    assert_eq!(address.street, "123 Main St");
    assert_eq!(address.city, "Anytown");
    assert_eq!(address.state, "CA");
    assert_eq!(address.postal_code, "12345");
    assert_eq!(address.country, "USA");
}

#[test]
fn test_address_equality() {
    let addr1 = Address {
        street: "123 Main St".to_string(),
        city: "Anytown".to_string(),
        state: "CA".to_string(),
        postal_code: "12345".to_string(),
        country: "USA".to_string(),
    };

    let addr2 = Address {
        street: "123 Main St".to_string(),
        city: "Anytown".to_string(),
        state: "CA".to_string(),
        postal_code: "12345".to_string(),
        country: "USA".to_string(),
    };

    let addr3 = Address {
        street: "456 Oak Ave".to_string(),
        city: "Anytown".to_string(),
        state: "CA".to_string(),
        postal_code: "12345".to_string(),
        country: "USA".to_string(),
    };

    assert_eq!(addr1, addr2);
    assert_ne!(addr1, addr3);
}

#[test]
fn test_order_status_equality() {
    assert_eq!(OrderStatus::Created, OrderStatus::Created);
    assert_eq!(OrderStatus::Confirmed, OrderStatus::Confirmed);
    assert_ne!(OrderStatus::Created, OrderStatus::Confirmed);
}

#[test]
fn test_payment_method_creation() {
    let payment = event_outbox::domain::customer::PaymentMethod {
        id: uuid::Uuid::new_v4().as_u128(),
        method_type: event_outbox::domain::customer::PaymentMethodType::CreditCard,
        last_four: "1234".to_string(),
        is_default: true,
    };

    assert_eq!(payment.last_four, "1234");
    assert!(payment.is_default);
    assert_eq!(
        payment.method_type,
        event_outbox::domain::customer::PaymentMethodType::CreditCard
    );
}

#[test]
fn test_order_item_creation() {
    let product_id = uuid::Uuid::new_v4().as_u128();
    let item = event_outbox::domain::order::OrderItem { product_id, quantity: 5 };

    assert_eq!(item.product_id, product_id);
    assert_eq!(item.quantity, 5);
}

#[test]
fn a_copy_of_an_email_or_phone_is_equal_to_it() {
    let email = Email::new("a@b.c");
    assert_eq!(email.clone(), email);
    let phone = PhoneNumber::new("+1-555-0123");
    assert_eq!(phone.clone(), phone);
    assert_eq!(phone.clone().as_str(), "+1-555-0123");
}

#[test]
fn customer_tiers_are_ranked_from_bronze_to_platinum() {
    assert_eq!(CustomerTier::Bronze.level(), 0);
    assert_eq!(CustomerTier::Silver.level(), 1);
    assert_eq!(CustomerTier::Gold.level(), 2);
    assert_eq!(CustomerTier::Platinum.level(), 3);
}
