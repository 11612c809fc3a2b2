//! The domain aggregates: one directory each, with its value objects, events,
//! commands, errors, aggregate and command handler.

pub mod customer;
pub mod order;
