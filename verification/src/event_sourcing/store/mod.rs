//! Persistence of events: the rows that are written, the batch that writes
//! them at once, and what holds of the tables that receive them.

pub mod event_store;
pub mod tables;

pub use event_store::{
    AggregateLoadError, AppendBatch, BatchOutcome, CommandError, EventStore, OutboxRow, SequenceRow, StoreError,
    StoredEvent,
};
pub use tables::Tables;
