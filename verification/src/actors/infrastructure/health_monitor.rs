use vstd::prelude::*;

use crate::actors::base::health::{ComponentHealth, HealthStatus, HealthView};
use crate::platform::{now, Timestamp};
use crate::utils::circuit_breaker::CircuitState;

verus! {

/// How often the broker's circuit breaker is probed, in milliseconds.
pub const PROBE_INTERVAL_MS: u64 = 10_000;

/// Reports the health of one component.
#[derive(Debug)]
pub struct UpdateHealth {
    pub component: String,
    pub status: HealthStatus,
    pub details: Option<String>,
}

/// Asks for the health of the whole system.
#[derive(Debug, Clone, Copy)]
pub struct GetSystemHealth;

/// The health of every component at one instant, and what it adds up to.
#[derive(Debug)]
pub struct SystemHealth {
    pub overall_status: HealthStatus,
    /// The latest report of every component, in the order in which the
    /// components first reported; no name occurs twice.
    pub components: Vec<ComponentHealth>,
    pub check_time: Timestamp,
}

/// Keeps the latest health report of every component.
pub struct HealthMonitorActor {
    pub components: Vec<ComponentHealth>,
}

/// The lines that name the unhealthy among `components`, in order: for each
/// of them its name, a colon and a space, and its message.
pub open spec fn unhealthy_lines(components: Seq<ComponentHealth>) -> Seq<Seq<char>>
    decreases components.len(),
{
    if components.len() == 0 {
        Seq::empty()
    } else {
        let earlier = unhealthy_lines(components.drop_last());
        match components.last().status {
            HealthStatus::Unhealthy(message) => earlier.push(
                components.last().name@ + ": "@ + message@,
            ),
            _ => earlier,
        }
    }
}

/// `lines` in one text, with a comma and a space between two of them.
pub open spec fn joined(lines: Seq<Seq<char>>) -> Seq<char>
    decreases lines.len(),
{
    if lines.len() == 0 {
        Seq::empty()
    } else if lines.len() == 1 {
        lines[0]
    } else {
        joined(lines.drop_last()) + ", "@ + lines.last()
    }
}

/// Whether one of `components` is degraded.
pub open spec fn any_degraded(components: Seq<ComponentHealth>) -> bool {
    exists|i: int| 0 <= i < components.len() && (#[trigger] components[i]).status is Degraded
}

/// What the health of `components` adds up to: unhealthy if one of them is,
/// with the lines of all that are; else degraded if one of them is; else
/// healthy.
pub open spec fn overall_status(components: Seq<ComponentHealth>) -> HealthView {
    if unhealthy_lines(components).len() > 0 {
        HealthView::Unhealthy(joined(unhealthy_lines(components)))
    } else if any_degraded(components) {
        HealthView::Degraded("Some components degraded"@)
    } else {
        HealthView::Healthy
    }
}

/// Where the component `name` stands among `components`, or their number
/// where it does not.
pub open spec fn position_of(components: Seq<ComponentHealth>, name: Seq<char>) -> int
    decreases components.len(),
{
    if components.len() == 0 {
        0
    } else if components[0].name@ == name {
        0
    } else {
        1 + position_of(components.drop_first(), name)
    }
}

/// No name occurs twice among `components`.
pub open spec fn names_distinct(components: Seq<ComponentHealth>) -> bool {
    forall|i: int, j: int|
        0 <= i < j < components.len() ==> (#[trigger] components[i]).name@ != (
        #[trigger] components[j]).name@
}

pub proof fn lemma_position_of(components: Seq<ComponentHealth>, name: Seq<char>)
    ensures
        0 <= position_of(components, name) <= components.len(),
        position_of(components, name) < components.len() ==> components[position_of(
            components,
            name,
        )].name@ == name,
        forall|i: int|
            0 <= i < position_of(components, name) ==> (#[trigger] components[i]).name@ != name,
    decreases components.len(),
{
    if components.len() != 0 && components[0].name@ != name {
        let rest = components.drop_first();
        lemma_position_of(rest, name);
        assert forall|i: int| 0 <= i < position_of(components, name) implies (
        #[trigger] components[i]).name@ != name by {
            if i > 0 {
                assert(components[i] == rest[i - 1]);
            }
        }
    }
}

/// The health that a circuit breaker's state stands for: closed is healthy,
/// half-open is degraded, open is unhealthy.
pub open spec fn circuit_health(state: CircuitState) -> HealthView {
    match state {
        CircuitState::Closed => HealthView::Healthy,
        CircuitState::HalfOpen => HealthView::Degraded("Circuit breaker half-open"@),
        CircuitState::Open => HealthView::Unhealthy("Circuit breaker open"@),
    }
}

impl HealthMonitorActor {
    /// A monitor that has heard of no component.
    pub fn new() -> (r: Self)
        ensures
            r.components@.len() == 0,
    {
        HealthMonitorActor { components: Vec::new() }
    }

    fn compute_overall_status(&self) -> (r: HealthStatus)
        ensures
            r@ == overall_status(self.components@),
    {
        let mut has_degraded = false;
        let mut unhealthy = String::new();
        let mut any_unhealthy = false;
        let mut i: usize = 0;
        assert(self.components@.take(0) =~= Seq::empty());
        while i < self.components.len()
            invariant
                i <= self.components.len(),
                has_degraded == any_degraded(self.components@.take(i as int)),
                any_unhealthy == (unhealthy_lines(self.components@.take(i as int)).len() > 0),
                unhealthy@ == joined(unhealthy_lines(self.components@.take(i as int))),
            decreases self.components.len() - i,
        {
            let ghost before = self.components@.take(i as int);
            let ghost after = self.components@.take(i as int + 1);
            proof {
                assert(after.drop_last() =~= before);
                assert(after.last() == self.components@[i as int]);
                if any_degraded(before) {
                    let k = choose|k: int| 0 <= k < before.len() && (#[trigger] before[k]).status is Degraded;
                    assert(after[k].status is Degraded);
                }
                if any_degraded(after) && !(self.components@[i as int].status is Degraded) {
                    let k = choose|k: int| 0 <= k < after.len() && (#[trigger] after[k]).status is Degraded;
                    assert(before[k].status is Degraded);
                }
            }
            let health = &self.components[i];
            match &health.status {
                HealthStatus::Unhealthy(message) => {
                    let ghost lines = unhealthy_lines(before);
                    if any_unhealthy {
                        unhealthy.append(", ");
                    }
                    unhealthy.append(health.name.as_str());
                    unhealthy.append(": ");
                    unhealthy.append(message.as_str());
                    any_unhealthy = true;
                    proof {
                        let line = health.name@ + ": "@ + message@;
                        assert(unhealthy_lines(after) == lines.push(line));
                        assert(lines.push(line).drop_last() =~= lines);
                        if lines.len() == 0 {
                            assert(unhealthy@ =~= line);
                        } else {
                            assert(unhealthy@ =~= joined(lines) + ", "@ + line);
                        }
                    }
                },
                HealthStatus::Degraded(_) => {
                    has_degraded = true;
                    assert(after[i as int].status is Degraded);
                },
                HealthStatus::Healthy => {},
            }
            i = i + 1;
        }
        assert(self.components@.take(self.components.len() as int) =~= self.components@);
        if any_unhealthy {
            HealthStatus::Unhealthy(unhealthy)
        } else if has_degraded {
            HealthStatus::Degraded("Some components degraded".to_owned())
        } else {
            HealthStatus::Healthy
        }
    }

    /// Takes in a report: it replaces the earlier report of the same
    /// component where there is one, and is added after the others where
    /// there is none. It is stamped with the time at which it came in.
    pub fn update_health(&mut self, msg: UpdateHealth)
        ensures
            ({
                let at = position_of(old(self).components@, msg.component@);
                &&& final(self).components@.len() == if at < old(self).components@.len() {
                    old(self).components@.len()
                } else {
                    old(self).components@.len() + 1
                }
                &&& final(self).components@[at].name == msg.component
                &&& final(self).components@[at].status == msg.status
                &&& final(self).components@[at].details == msg.details
                &&& forall|i: int|
                    0 <= i < old(self).components@.len() && i != at ==> final(self).components@[i]
                        == old(self).components@[i]
            }),
            names_distinct(old(self).components@) ==> names_distinct(final(self).components@),
    {
        let ghost before = self.components@;
        proof {
            lemma_position_of(before, msg.component@);
        }
        let mut i: usize = 0;
        while i < self.components.len()
            invariant
                self.components@ == before,
                before == old(self).components@,
                i <= before.len(),
                forall|j: int| 0 <= j < i ==> (#[trigger] before[j]).name@ != msg.component@,
                position_of(before, msg.component@) >= i,
                position_of(before, msg.component@) < before.len() ==> before[position_of(
                    before,
                    msg.component@,
                )].name@ == msg.component@,
            decreases self.components.len() - i,
        {
            if self.components[i].name == msg.component {
                assert(position_of(before, msg.component@) == i) by {
                    lemma_position_of(before, msg.component@);
                }
                let health = ComponentHealth {
                    name: msg.component,
                    status: msg.status,
                    last_check: now(),
                    details: msg.details,
                };
                self.components.set(i, health);
                assert(self.components@ == before.update(i as int, health));
                assert forall|a: int, b: int|
                    names_distinct(before) && 0 <= a < b < self.components@.len() implies (
                #[trigger] self.components@[a]).name@ != (#[trigger] self.components@[b]).name@ by {
                    assert(before[a].name@ != before[b].name@);
                }
                return ;
            }
            i = i + 1;
        }
        assert(position_of(before, msg.component@) == before.len());
        let health = ComponentHealth {
            name: msg.component,
            status: msg.status,
            last_check: now(),
            details: msg.details,
        };
        self.components.push(health);
        assert forall|a: int, b: int|
            names_distinct(before) && 0 <= a < b < self.components@.len() implies (
        #[trigger] self.components@[a]).name@ != (#[trigger] self.components@[b]).name@ by {
            if b < before.len() {
                assert(before[a].name@ != before[b].name@);
            } else {
                assert(before[a].name@ != msg.component@);
            }
        }
    }

    /// The latest report of every component, what they add up to, and the
    /// time of the answer.
    pub fn get_system_health(&self, _msg: GetSystemHealth) -> (r: SystemHealth)
        ensures
            r.overall_status@ == overall_status(self.components@),
            r.components@ == self.components@,
    {
        let overall_status = self.compute_overall_status();
        SystemHealth { overall_status, components: self.components.clone(), check_time: now() }
    }

    /// The report on the broker that the state of its circuit breaker calls
    /// for, under the name `redpanda` and without details.
    pub fn check_redpanda_health(state: CircuitState) -> (r: UpdateHealth)
        ensures
            r.component@ == "redpanda"@,
            r.status@ == circuit_health(state),
            r.details is None,
    {
        let status = match state {
            CircuitState::Closed => HealthStatus::Healthy,
            CircuitState::HalfOpen => HealthStatus::Degraded("Circuit breaker half-open".to_owned()),
            CircuitState::Open => HealthStatus::Unhealthy("Circuit breaker open".to_owned()),
        };
        UpdateHealth { component: "redpanda".to_owned(), status, details: None }
    }
}

} // verus!
