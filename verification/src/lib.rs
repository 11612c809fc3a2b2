//! Event-sourced write path with a transactional outbox, and the relay that
//! carries outbox rows to a message broker.
//!
//! Everything here works on plain values: identifiers are `u128`, instants are
//! [`platform::Timestamp`], rows are structs. Reading and writing the database
//! and the broker is left to the caller, which hands the rows in and carries
//! the results out.

pub mod actors;
pub mod config;
pub mod platform;
pub mod utils;
pub mod domain;
pub mod event_sourcing;
pub mod messaging;
pub mod metrics;
pub mod models;
