//! The long-lived components around the write path: what each of them decides
//! when a message reaches it. Running them, and carrying the messages, is
//! left to the caller.

pub mod base;
pub mod cdc_processor_polling;
pub mod infrastructure;
