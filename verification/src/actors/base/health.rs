use vstd::prelude::*;

use crate::domain::customer::events::clone_opt_string;
use crate::platform::{now, Timestamp};

verus! {

/// How a component is doing.
#[derive(Debug, PartialEq)]
pub enum HealthStatus {
    Healthy,
    Degraded(String),
    Unhealthy(String),
}

/// A health status with its message as text.
pub enum HealthView {
    Healthy,
    Degraded(Seq<char>),
    Unhealthy(Seq<char>),
}

impl View for HealthStatus {
    type V = HealthView;

    open spec fn view(&self) -> HealthView {
        match self {
            HealthStatus::Healthy => HealthView::Healthy,
            HealthStatus::Degraded(message) => HealthView::Degraded(message@),
            HealthStatus::Unhealthy(message) => HealthView::Unhealthy(message@),
        }
    }
}

impl Clone for HealthStatus {
    fn clone(&self) -> (r: Self)
        ensures
            r == *self,
    {
        match self {
            HealthStatus::Healthy => HealthStatus::Healthy,
            HealthStatus::Degraded(message) => HealthStatus::Degraded(message.clone()),
            HealthStatus::Unhealthy(message) => HealthStatus::Unhealthy(message.clone()),
        }
    }
}

impl HealthStatus {
    pub fn is_healthy(&self) -> (r: bool)
        ensures
            r == (self is Healthy),
    {
        match self {
            HealthStatus::Healthy => true,
            _ => false,
        }
    }

    pub fn is_degraded(&self) -> (r: bool)
        ensures
            r == (self is Degraded),
    {
        match self {
            HealthStatus::Degraded(_) => true,
            _ => false,
        }
    }

    pub fn is_unhealthy(&self) -> (r: bool)
        ensures
            r == (self is Unhealthy),
    {
        match self {
            HealthStatus::Unhealthy(_) => true,
            _ => false,
        }
    }
}

/// What is known of one component's health.
#[derive(Debug)]
pub struct ComponentHealth {
    pub name: String,
    pub status: HealthStatus,
    /// When the status was reported.
    pub last_check: Timestamp,
    pub details: Option<String>,
}

impl Clone for ComponentHealth {
    fn clone(&self) -> (r: Self)
        ensures
            r == *self,
    {
        ComponentHealth {
            name: self.name.clone(),
            status: self.status.clone(),
            last_check: self.last_check,
            details: clone_opt_string(&self.details),
        }
    }
}

impl ComponentHealth {
    /// The health of `name` as reported just now, without details.
    pub fn new(name: &str, status: HealthStatus) -> (r: Self)
        ensures
            r.name@ == name@,
            r.status == status,
            r.details is None,
    {
        ComponentHealth { name: name.to_owned(), status, last_check: now(), details: None }
    }

    pub fn with_details(self, details: &str) -> (r: Self)
        ensures
            r.name == self.name,
            r.status == self.status,
            r.last_check == self.last_check,
            r.details matches Some(text) && text@ == details@,
    {
        let mut health = self;
        health.details = Some(details.to_owned());
        health
    }
}

/// A component that can say how it is doing.
pub trait HealthCheckable {
    fn check_health(&self) -> ComponentHealth;

    fn component_name(&self) -> &str;
}

} // verus!
