//! The generic event-sourcing machinery: envelopes, the aggregate contract
//! and the event store.

pub mod base;
pub mod store;

pub use base::aggregate::{AggregateRoot, LoadError};
pub use base::event::{DomainEvent, EventEnvelope, EventUpcaster, UpcastError};
pub use store::event_store::EventStore;
