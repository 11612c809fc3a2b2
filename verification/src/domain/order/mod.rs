//! The order aggregate.

pub mod aggregate;
pub mod command_handler;
pub mod commands;
pub mod errors;
pub mod events;
pub mod value_objects;

pub use aggregate::{OrderAggregate, OrderState};
pub use command_handler::OrderCommandHandler;
pub use commands::OrderCommand;
pub use errors::OrderError;
pub use events::{
    OrderCancelled, OrderConfirmed, OrderCreated, OrderDelivered, OrderEvent, OrderFact,
    OrderItemsUpdated, OrderShipped,
};
pub use value_objects::{OrderItem, OrderStatus};
