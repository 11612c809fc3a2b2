use vstd::prelude::*;

use crate::actors::base::health::{HealthStatus, HealthView};

use super::health_monitor::{SystemHealth, UpdateHealth};

verus! {

/// How often the coordinator asks for the health of the system, in
/// milliseconds.
pub const HEALTH_CHECK_INTERVAL_MS: u64 = 30_000;

/// A component that the coordinator starts and stops.
#[derive(Debug, Clone, Copy, PartialEq, Eq, Structural)]
pub enum Child {
    HealthMonitor,
    DlqActor,
    CdcProcessor,
}

/// One thing for the coordinator's runner to do.
#[derive(Debug, Clone, Copy, PartialEq, Eq, Structural)]
pub enum CoordinatorAction {
    /// Start the component; the relay is started with the dead-letter queue
    /// as the place for what it cannot publish.
    Start(Child),
    /// Report to the health monitor that the component has started.
    ReportStarted(Child),
    /// From now on, ask for the health of the system at this interval.
    ScheduleHealthCheck { every_ms: u64 },
    /// Tell the component to finish what it is doing and stop.
    Stop(Child),
    /// Stop the coordinator itself.
    StopSelf,
}

/// Asks the coordinator to shut the system down.
#[derive(Debug, Clone, Copy)]
pub struct Shutdown;

/// How loud a line of the log is.
#[derive(Debug, Clone, Copy, PartialEq, Eq, Structural)]
pub enum LogLevel {
    Debug,
    Warn,
    Error,
}

/// Starts, watches and stops the relay, the dead-letter queue and the
/// health monitor. It says what is to be done; its runner does it.
pub struct CoordinatorActor {
    /// Whether the relay has been started.
    pub cdc_processor: bool,
    /// Whether the health monitor has been started.
    pub health_monitor: bool,
    /// Whether the dead-letter queue has been started.
    pub dlq_actor: bool,
}

/// What is done on start, in order: the health monitor is started, then the
/// dead-letter queue, which is reported, then the relay, which is reported;
/// and the health check is scheduled.
pub open spec fn start_plan() -> Seq<CoordinatorAction> {
    seq![
        CoordinatorAction::Start(Child::HealthMonitor),
        CoordinatorAction::Start(Child::DlqActor),
        CoordinatorAction::ReportStarted(Child::DlqActor),
        CoordinatorAction::Start(Child::CdcProcessor),
        CoordinatorAction::ReportStarted(Child::CdcProcessor),
        CoordinatorAction::ScheduleHealthCheck { every_ms: HEALTH_CHECK_INTERVAL_MS },
    ]
}

/// What is done on shutdown, in order: the relay is stopped first, then the
/// dead-letter queue, then the health monitor, each if it was started; the
/// coordinator stops last.
pub open spec fn shutdown_plan(
    cdc_processor: bool,
    dlq_actor: bool,
    health_monitor: bool,
) -> Seq<CoordinatorAction> {
    (if cdc_processor {
        seq![CoordinatorAction::Stop(Child::CdcProcessor)]
    } else {
        Seq::empty()
    }) + (if dlq_actor {
        seq![CoordinatorAction::Stop(Child::DlqActor)]
    } else {
        Seq::empty()
    }) + (if health_monitor {
        seq![CoordinatorAction::Stop(Child::HealthMonitor)]
    } else {
        Seq::empty()
    }) + seq![CoordinatorAction::StopSelf]
}

/// The level at which a health of the system is logged: the louder the
/// worse it is.
pub open spec fn log_level(status: HealthView) -> LogLevel {
    match status {
        HealthView::Healthy => LogLevel::Debug,
        HealthView::Degraded(_) => LogLevel::Warn,
        HealthView::Unhealthy(_) => LogLevel::Error,
    }
}

/// The line that is logged for a health of the system.
pub open spec fn log_line(status: HealthView) -> Seq<char> {
    match status {
        HealthView::Healthy => "System health check: Healthy"@,
        HealthView::Degraded(message) => "System health check: Degraded - "@ + message,
        HealthView::Unhealthy(message) => "System health check: Unhealthy - "@ + message,
    }
}

impl CoordinatorActor {
    /// A coordinator that has started nothing.
    pub fn new() -> (r: Self)
        ensures
            !r.cdc_processor,
            !r.health_monitor,
            !r.dlq_actor,
    {
        CoordinatorActor { cdc_processor: false, health_monitor: false, dlq_actor: false }
    }

    /// Starts the system: returns [`start_plan`], and holds every component
    /// as started.
    pub fn on_start(&mut self) -> (actions: Vec<CoordinatorAction>)
        ensures
            actions@ == start_plan(),
            final(self).cdc_processor,
            final(self).health_monitor,
            final(self).dlq_actor,
    {
        let mut actions: Vec<CoordinatorAction> = Vec::new();
        actions.push(CoordinatorAction::Start(Child::HealthMonitor));
        self.health_monitor = true;
        actions.push(CoordinatorAction::Start(Child::DlqActor));
        self.dlq_actor = true;
        actions.push(CoordinatorAction::ReportStarted(Child::DlqActor));
        actions.push(CoordinatorAction::Start(Child::CdcProcessor));
        self.cdc_processor = true;
        actions.push(CoordinatorAction::ReportStarted(Child::CdcProcessor));
        actions.push(CoordinatorAction::ScheduleHealthCheck { every_ms: HEALTH_CHECK_INTERVAL_MS });
        assert(actions@ =~= start_plan());
        actions
    }

    /// The report that tells the health monitor that a component has
    /// started; none for the health monitor itself.
    pub fn started_report(child: Child) -> (r: Option<UpdateHealth>)
        ensures
            match child {
                Child::HealthMonitor => r is None,
                Child::DlqActor => r is Some && r->0.component@ == "dlq_actor"@
                    && r->0.status is Healthy && r->0.details is Some && r->0.details->0@
                    == "DLQ actor started"@,
                Child::CdcProcessor => r is Some && r->0.component@ == "cdc_processor"@
                    && r->0.status is Healthy && r->0.details is Some && r->0.details->0@
                    == "CDC processor started"@,
            },
    {
        match child {
            Child::HealthMonitor => None,
            Child::DlqActor => Some(
                UpdateHealth {
                    component: "dlq_actor".to_owned(),
                    status: HealthStatus::Healthy,
                    details: Some("DLQ actor started".to_owned()),
                },
            ),
            Child::CdcProcessor => Some(
                UpdateHealth {
                    component: "cdc_processor".to_owned(),
                    status: HealthStatus::Healthy,
                    details: Some("CDC processor started".to_owned()),
                },
            ),
        }
    }

    /// What to log for the health that the monitor answered: the level and
    /// the line.
    pub fn report_health(health: &SystemHealth) -> (r: (LogLevel, String))
        ensures
            r.0 == log_level(health.overall_status@),
            r.1@ == log_line(health.overall_status@),
    {
        match &health.overall_status {
            HealthStatus::Healthy => (LogLevel::Debug, "System health check: Healthy".to_owned()),
            HealthStatus::Degraded(message) => {
                let mut line = "System health check: Degraded - ".to_owned();
                line.append(message.as_str());
                (LogLevel::Warn, line)
            },
            HealthStatus::Unhealthy(message) => {
                let mut line = "System health check: Unhealthy - ".to_owned();
                line.append(message.as_str());
                (LogLevel::Error, line)
            },
        }
    }

    /// Shuts the system down: returns the [`shutdown_plan`] for the
    /// components that were started.
    pub fn handle(&mut self, _msg: Shutdown) -> (actions: Vec<CoordinatorAction>)
        ensures
            actions@ == shutdown_plan(
                old(self).cdc_processor,
                old(self).dlq_actor,
                old(self).health_monitor,
            ),
            *final(self) == *old(self),
    {
        let mut actions: Vec<CoordinatorAction> = Vec::new();
        if self.cdc_processor {
            actions.push(CoordinatorAction::Stop(Child::CdcProcessor));
        }
        if self.dlq_actor {
            actions.push(CoordinatorAction::Stop(Child::DlqActor));
        }
        if self.health_monitor {
            actions.push(CoordinatorAction::Stop(Child::HealthMonitor));
        }
        actions.push(CoordinatorAction::StopSelf);
        assert(actions@ =~= shutdown_plan(
            self.cdc_processor,
            self.dlq_actor,
            self.health_monitor,
        ));
        actions
    }
}

/// On shutdown the relay is told to stop before the dead-letter queue, and
/// the dead-letter queue before the health monitor; the coordinator stops
/// last. On start every component is started before it is reported.
pub proof fn law_order_of_start_and_shutdown()
    ensures
        shutdown_plan(true, true, true) == seq![
            CoordinatorAction::Stop(Child::CdcProcessor),
            CoordinatorAction::Stop(Child::DlqActor),
            CoordinatorAction::Stop(Child::HealthMonitor),
            CoordinatorAction::StopSelf,
        ],
        forall|r: bool, d: bool, h: bool| (#[trigger] shutdown_plan(r, d, h)).last()
            == CoordinatorAction::StopSelf,
        forall|child: Child, i: int|
            0 <= i < start_plan().len() && start_plan()[i] == CoordinatorAction::ReportStarted(
                child,
            ) ==> exists|j: int| 0 <= j < i && start_plan()[j] == CoordinatorAction::Start(child),
{
    assert(shutdown_plan(true, true, true) =~= seq![
        CoordinatorAction::Stop(Child::CdcProcessor),
        CoordinatorAction::Stop(Child::DlqActor),
        CoordinatorAction::Stop(Child::HealthMonitor),
        CoordinatorAction::StopSelf,
    ]);
    assert forall|child: Child, i: int|
        0 <= i < start_plan().len() && start_plan()[i] == CoordinatorAction::ReportStarted(
            child,
        ) implies exists|j: int| 0 <= j < i && start_plan()[j] == CoordinatorAction::Start(child) by {
        if i == 2 {
            assert(start_plan()[1] == CoordinatorAction::Start(Child::DlqActor));
        } else if i == 4 {
            assert(start_plan()[3] == CoordinatorAction::Start(Child::CdcProcessor));
        }
    }
}

} // verus!
