use vstd::prelude::*;

verus! {

/// What a supervisor does when a component fails.
#[derive(Debug, Clone, Copy, PartialEq, Eq, Structural)]
pub enum SupervisionStrategy {
    /// Start the component again.
    Restart,
    /// Leave the component stopped.
    Stop,
    /// Hand the failure to the supervisor's own supervisor.
    Escalate,
}

/// What a supervisor knows of a component.
#[derive(Debug, Clone)]
pub struct ActorMetadata {
    pub name: String,
    pub description: String,
    pub strategy: SupervisionStrategy,
}

} // verus!
