//! What the components have in common.

pub mod health;
pub mod supervised;

pub use health::{ComponentHealth, HealthCheckable, HealthStatus, HealthView};
pub use supervised::{ActorMetadata, SupervisionStrategy};
