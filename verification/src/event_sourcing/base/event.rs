use vstd::prelude::*;

use crate::platform::{new_uuid, now, Timestamp};

verus! {

/// A domain event wrapped with the metadata under which it is stored.
/// Envelopes are not changed once built; the `with_` builders consume one
/// and return the next.
#[derive(Debug, Clone)]
pub struct EventEnvelope<E> {
    pub event_id: u128,
    pub aggregate_id: u128,
    /// 1-based position in the aggregate's history.
    pub sequence_number: i64,
    pub event_type: String,
    pub event_version: i32,
    pub event_data: E,
    /// The command or event that caused this one.
    pub causation_id: Option<u128>,
    /// Groups the envelopes that answer one originating request.
    pub correlation_id: u128,
    pub user_id: Option<u128>,
    pub timestamp: Timestamp,
    /// Free-form pairs; a key occurs at most once.
    pub metadata: Vec<(String, String)>,
}

/// Whether `key` is the key of one of `pairs`.
pub open spec fn has_key(pairs: Seq<(String, String)>, key: Seq<char>) -> bool {
    exists|i: int| 0 <= i < pairs.len() && (#[trigger] pairs[i]).0@ == key
}

/// No key occurs twice in `pairs`.
pub open spec fn keys_distinct(pairs: Seq<(String, String)>) -> bool {
    forall|i: int, j: int|
        0 <= i < j < pairs.len() ==> (#[trigger] pairs[i]).0@ != (#[trigger] pairs[j]).0@
}

/// The first position of `key` among `pairs`, or `pairs.len()` when absent.
pub open spec fn key_position(pairs: Seq<(String, String)>, key: Seq<char>) -> int
    decreases pairs.len(),
{
    if pairs.len() == 0 {
        0
    } else if pairs[0].0@ == key {
        0
    } else {
        1 + key_position(pairs.drop_first(), key)
    }
}

/// `pairs` after `key` is set to `value`: the pair that held `key` is replaced
/// where it stood, and a new key goes to the end.
pub open spec fn with_pair(pairs: Seq<(String, String)>, key: String, value: String) -> Seq<
    (String, String),
> {
    let at = key_position(pairs, key@);
    if at < pairs.len() {
        pairs.update(at, (key, value))
    } else {
        pairs.push((key, value))
    }
}

pub proof fn lemma_key_position(pairs: Seq<(String, String)>, key: Seq<char>)
    ensures
        0 <= key_position(pairs, key) <= pairs.len(),
        key_position(pairs, key) < pairs.len() ==> pairs[key_position(pairs, key)].0@ == key,
        forall|i: int| 0 <= i < key_position(pairs, key) ==> (#[trigger] pairs[i]).0@ != key,
    decreases pairs.len(),
{
    if pairs.len() != 0 && pairs[0].0@ != key {
        let rest = pairs.drop_first();
        lemma_key_position(rest, key);
        assert forall|i: int| 0 <= i < key_position(pairs, key) implies (#[trigger] pairs[i]).0@
            != key by {
            if i > 0 {
                assert(pairs[i] == rest[i - 1]);
            }
        }
    }
}

impl<E> EventEnvelope<E> {
    /// A new envelope with a fresh `event_id`, the current time, version 1,
    /// and neither causation, user nor metadata.
    pub fn new(
        aggregate_id: u128,
        sequence_number: i64,
        event_type: String,
        event_data: E,
        correlation_id: u128,
    ) -> (r: Self)
        ensures
            r.aggregate_id == aggregate_id,
            r.sequence_number == sequence_number,
            r.event_type == event_type,
            r.event_version == 1,
            r.event_data == event_data,
            r.causation_id is None,
            r.correlation_id == correlation_id,
            r.user_id is None,
            r.metadata@.len() == 0,
    {
        EventEnvelope {
            event_id: new_uuid(),
            aggregate_id,
            sequence_number,
            event_type,
            event_version: 1,
            event_data,
            causation_id: None,
            correlation_id,
            user_id: None,
            timestamp: now(),
            metadata: Vec::new(),
        }
    }

    pub fn with_user(self, user_id: u128) -> (r: Self)
        ensures
            r == (EventEnvelope { user_id: Some(user_id), ..self }),
    {
        let mut envelope = self;
        envelope.user_id = Some(user_id);
        envelope
    }

    pub fn with_causation(self, causation_id: u128) -> (r: Self)
        ensures
            r == (EventEnvelope { causation_id: Some(causation_id), ..self }),
    {
        let mut envelope = self;
        envelope.causation_id = Some(causation_id);
        envelope
    }

    /// Sets `key` to `value`, replacing the value that `key` had.
    pub fn with_metadata(self, key: String, value: String) -> (r: Self)
        ensures
            r.metadata@ == with_pair(self.metadata@, key, value),
            keys_distinct(self.metadata@) ==> keys_distinct(r.metadata@),
            r == (EventEnvelope { metadata: r.metadata, ..self }),
    {
        let mut envelope = self;
        let ghost before = envelope.metadata@;
        proof {
            lemma_key_position(before, key@);
        }
        let mut i: usize = 0;
        while i < envelope.metadata.len()
            invariant
                envelope.metadata@ == before,
                before == self.metadata@,
                envelope == (EventEnvelope { metadata: envelope.metadata, ..self }),
                i <= before.len(),
                forall|j: int| 0 <= j < i ==> (#[trigger] before[j]).0@ != key@,
                key_position(before, key@) >= i,
                key_position(before, key@) < before.len() ==> before[key_position(before, key@)].0@
                    == key@,
            decreases envelope.metadata.len() - i,
        {
            if envelope.metadata[i].0 == key {
                assert(key_position(before, key@) == i) by {
                    lemma_key_position(before, key@);
                }
                envelope.metadata.set(i, (key, value));
                assert(envelope.metadata@ == before.update(i as int, (key, value)));
                assert forall|a: int, b: int|
                    keys_distinct(before) && 0 <= a < b < envelope.metadata@.len() implies (
                #[trigger] envelope.metadata@[a]).0@ != (#[trigger] envelope.metadata@[b]).0@ by {
                    assert(before[a].0@ != before[b].0@);
                }
                return envelope;
            }
            i = i + 1;
        }
        assert(key_position(before, key@) == before.len());
        envelope.metadata.push((key, value));
        assert forall|a: int, b: int|
            keys_distinct(before) && 0 <= a < b < envelope.metadata@.len() implies (
        #[trigger] envelope.metadata@[a]).0@ != (#[trigger] envelope.metadata@[b]).0@ by {
            if b < before.len() {
                assert(before[a].0@ != before[b].0@);
            } else {
                assert(before[a].0@ != key@);
            }
        }
        envelope
    }
}

/// What the event store asks of an event type: a name and a schema version.
pub trait DomainEvent: Clone + Sized {
    fn event_type() -> &'static str;

    fn event_version() -> (r: i32)
        default_ensures
            r == 1,
    {
        1
    }
}

/// Why a stored event could not be brought to the current schema.
#[derive(Debug, Clone)]
pub struct UpcastError {
    pub message: String,
}

/// Rewrites the stored form of an event written under an older schema version.
pub trait EventUpcaster {
    fn upcast(&self, from_version: i32, event_json: &str) -> Result<String, UpcastError>;
}

} // verus!
