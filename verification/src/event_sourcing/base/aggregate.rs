use vstd::prelude::*;

use super::event::EventEnvelope;

verus! {

/// Why a history could not be folded into an aggregate.
#[derive(Debug)]
pub enum LoadError<E> {
    /// The history is empty.
    NoEvents,
    /// The first event is not one an aggregate can be born from.
    FirstEvent(E),
    /// A later event was refused.
    Event(E),
}

/// The root of an aggregate: state that is derived from events alone, and
/// that decides which events a command gives rise to.
pub trait AggregateRoot: Sized + Send + Sync {
    type Event;

    type Command;

    type Error;

    spec fn spec_aggregate_id(&self) -> u128;

    spec fn spec_version(&self) -> i64;

    /// Builds the aggregate from its birth event. The event names no
    /// identity: the one given here stands until the history is loaded.
    fn apply_first_event(event: &Self::Event) -> (r: Result<Self, Self::Error>);

    /// Folds a later event into the state. An accepted event advances the
    /// version by one and leaves the identity alone.
    fn apply_event(&mut self, event: &Self::Event) -> (r: Result<(), Self::Error>)
        requires
            old(self).spec_version() < i64::MAX,
        ensures
            r is Ok ==> final(self).spec_version() == old(self).spec_version() + 1,
            final(self).spec_aggregate_id() == old(self).spec_aggregate_id(),
    ;

    /// Checks `command` against the business rules and returns the events it
    /// gives rise to, possibly none. The state is not changed.
    fn handle_command(&self, command: &Self::Command) -> (r: Result<Vec<Self::Event>, Self::Error>);

    fn aggregate_id(&self) -> (r: u128)
        ensures
            r == self.spec_aggregate_id(),
    ;

    fn version(&self) -> (r: i64)
        ensures
            r == self.spec_version(),
    ;

    /// Rebuilds the aggregate from its history: the first event gives birth,
    /// the others are folded in order, the identity is the one that the
    /// first envelope names, and the version is the sequence number of the
    /// last envelope.
    fn load_from_events(events: Vec<EventEnvelope<Self::Event>>) -> (r: Result<
        Self,
        LoadError<Self::Error>,
    >)
        requires
            forall|i: int| 0 <= i < events.len() - 1 ==> (#[trigger] events[i]).sequence_number < i64::MAX,
        ensures
            events.len() == 0 ==> r matches Err(LoadError::NoEvents),
            r matches Ok(a) ==> events.len() > 0 && a.spec_version() == events[events.len()
                - 1].sequence_number && a.spec_aggregate_id() == events[0].aggregate_id,
    ;
}

} // verus!
