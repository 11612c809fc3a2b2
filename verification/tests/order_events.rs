use event_outbox::domain::customer::CustomerEvent;
use event_outbox::domain::order::{
    OrderCancelled, OrderConfirmed, OrderCreated, OrderDelivered, OrderEvent, OrderItemsUpdated,
    OrderShipped,
};
use event_outbox::event_sourcing::DomainEvent;

#[test]
fn test_event_type_methods() {
    assert_eq!(OrderCreated::event_type(), "OrderCreated");
    assert_eq!(OrderConfirmed::event_type(), "OrderConfirmed");
    assert_eq!(OrderShipped::event_type(), "OrderShipped");
    assert_eq!(OrderDelivered::event_type(), "OrderDelivered");
    assert_eq!(OrderCancelled::event_type(), "OrderCancelled");
    assert_eq!(OrderItemsUpdated::event_type(), "OrderItemsUpdated");
}

#[test]
fn test_event_version_methods() {
    assert_eq!(OrderCreated::event_version(), 1);
    assert_eq!(OrderConfirmed::event_version(), 1);
    assert_eq!(OrderShipped::event_version(), 1);
    assert_eq!(OrderDelivered::event_version(), 1);
    assert_eq!(OrderCancelled::event_version(), 1);
    assert_eq!(OrderItemsUpdated::event_version(), 1);
}

#[test]
fn the_union_types_have_their_own_name_and_the_default_version() {
    assert_eq!(OrderEvent::event_type(), "OrderEvent");
    assert_eq!(OrderEvent::event_version(), 1);
    assert_eq!(CustomerEvent::event_type(), "CustomerEvent");
    assert_eq!(CustomerEvent::event_version(), 1);
}

#[test]
fn a_copy_of_an_order_event_says_the_same() {
    let event = OrderEvent::Shipped(OrderShipped {
        tracking_number: "T".to_string(),
        carrier: "C".to_string(),
        shipped_at: event_outbox::platform::Timestamp { millis: 12 },
    });
    assert_eq!(format!("{:?}", event.clone()), format!("{:?}", event));
    assert_eq!(event.clone().type_tag(), "OrderShipped");
}
