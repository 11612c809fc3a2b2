//! The client of the message broker.

pub mod redpanda;

pub use redpanda::{PublishError, RedpandaClient};
