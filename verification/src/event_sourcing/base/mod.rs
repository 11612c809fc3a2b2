//! What every aggregate has in common.

pub mod aggregate;
pub mod event;
