//! The relay, the dead-letter queue, the health monitor and their
//! coordinator.

pub mod cdc_processor;
pub mod coordinator;
pub mod dlq;
pub mod health_monitor;

pub use cdc_processor::{
    CdcRow, Delivery, ExtractError, OperationType, OutboxCDCConsumer, OutboxEvent,
};
pub use coordinator::{Child, CoordinatorAction, CoordinatorActor, LogLevel, Shutdown};
pub use dlq::{AddToDlq, DlqActor, DlqMessage, DlqRow, DlqStats, GetDlqMessages, GetDlqStats};
pub use health_monitor::{GetSystemHealth, HealthMonitorActor, SystemHealth, UpdateHealth};
