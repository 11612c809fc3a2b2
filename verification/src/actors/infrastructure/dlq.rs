use vstd::prelude::*;

use crate::platform::{now, Timestamp};

verus! {

/// Hands a message that could not be published to the dead-letter queue.
#[derive(Debug)]
pub struct AddToDlq {
    /// The identifier of the outbox row.
    pub id: u128,
    pub aggregate_id: u128,
    pub event_type: String,
    pub payload: String,
    /// The last error.
    pub error_message: String,
    pub failure_count: i32,
    /// When the first attempt was made.
    pub first_failed_at: Timestamp,
}

/// Asks for up to `limit` dead letters.
#[derive(Debug, Clone, Copy)]
pub struct GetDlqMessages {
    pub limit: i32,
}

/// Asks for the statistics of the dead-letter queue.
#[derive(Debug, Clone, Copy)]
pub struct GetDlqStats;

/// A dead letter, as it is read back.
#[derive(Debug)]
pub struct DlqMessage {
    pub id: u128,
    pub aggregate_id: u128,
    pub event_type: String,
    pub payload: String,
    pub error_message: String,
    pub failure_count: i32,
    pub first_failed_at: Timestamp,
    pub last_failed_at: Timestamp,
}

/// A row of the `dead_letter_queue` table.
#[derive(Debug)]
pub struct DlqRow {
    pub message: DlqMessage,
    pub created_at: Timestamp,
}

/// How many dead letters there are, in all and for every event type.
#[derive(Debug)]
pub struct DlqStats {
    pub total_messages: i64,
    /// The event types that have a dead letter, each once, in the order in
    /// which they first occur, with the number of their dead letters.
    pub by_event_type: Vec<(String, i64)>,
}

impl Clone for DlqMessage {
    fn clone(&self) -> (r: Self)
        ensures
            r == *self,
    {
        DlqMessage {
            id: self.id,
            aggregate_id: self.aggregate_id,
            event_type: self.event_type.clone(),
            payload: self.payload.clone(),
            error_message: self.error_message.clone(),
            failure_count: self.failure_count,
            first_failed_at: self.first_failed_at,
            last_failed_at: self.last_failed_at,
        }
    }
}

/// How many of `messages` are of the event type `event_type`.
pub open spec fn count_of(messages: Seq<DlqMessage>, event_type: Seq<char>) -> nat
    decreases messages.len(),
{
    if messages.len() == 0 {
        0
    } else {
        count_of(messages.drop_last(), event_type) + if messages.last().event_type@ == event_type {
            1nat
        } else {
            0nat
        }
    }
}

/// Whether `breakdown` counts the dead letters of `messages` by event
/// type: it names every event type that occurs, once, with the number of
/// its dead letters, and names no other.
pub open spec fn breaks_down(breakdown: Seq<(String, i64)>, messages: Seq<DlqMessage>) -> bool {
    &&& forall|i: int, j: int|
        0 <= i < j < breakdown.len() ==> (#[trigger] breakdown[i]).0@ != (#[trigger] breakdown[j]).0@
    &&& forall|i: int|
        0 <= i < breakdown.len() ==> (#[trigger] breakdown[i]).1 > 0 && breakdown[i].1 == count_of(
            messages,
            breakdown[i].0@,
        )
    &&& forall|k: int|
        0 <= k < messages.len() ==> exists|i: int|
            0 <= i < breakdown.len() && (#[trigger] breakdown[i]).0@ == (
            #[trigger] messages[k]).event_type@
}

pub proof fn lemma_count_bounded(messages: Seq<DlqMessage>, event_type: Seq<char>)
    ensures
        count_of(messages, event_type) <= messages.len(),
    decreases messages.len(),
{
    if messages.len() > 0 {
        lemma_count_bounded(messages.drop_last(), event_type);
    }
}

/// Whether `row` is the row to store for `msg`: the message as it came,
/// last failed and created at one and the same time.
pub open spec fn stores(row: DlqRow, msg: AddToDlq) -> bool {
    &&& row.message.id == msg.id
    &&& row.message.aggregate_id == msg.aggregate_id
    &&& row.message.event_type == msg.event_type
    &&& row.message.payload == msg.payload
    &&& row.message.error_message == msg.error_message
    &&& row.message.failure_count == msg.failure_count
    &&& row.message.first_failed_at == msg.first_failed_at
    &&& row.message.last_failed_at == row.created_at
}

/// The dead-letter queue: what is stored for a message that could not be
/// published, and what is said of the messages that are stored.
pub struct DlqActor {}

impl DlqActor {
    pub fn new() -> (r: Self) {
        DlqActor {  }
    }

    /// The row to store for `msg`: the message as it came, last failed and
    /// created at the time at which it came in.
    pub fn add(&self, msg: AddToDlq) -> (r: DlqRow)
        ensures
            stores(r, msg),
    {
        let at = now();
        DlqRow {
            message: DlqMessage {
                id: msg.id,
                aggregate_id: msg.aggregate_id,
                event_type: msg.event_type,
                payload: msg.payload,
                error_message: msg.error_message,
                failure_count: msg.failure_count,
                first_failed_at: msg.first_failed_at,
                last_failed_at: at,
            },
            created_at: at,
        }
    }

    /// The first `limit` of the dead letters `stored`, and all of them
    /// where there are fewer; none where `limit` is not positive.
    pub fn list(&self, stored: Vec<DlqMessage>, msg: GetDlqMessages) -> (r: Vec<DlqMessage>)
        ensures
            r@ == stored@.take(
                if msg.limit <= 0 {
                    0
                } else if msg.limit < stored@.len() {
                    msg.limit as int
                } else {
                    stored@.len() as int
                },
            ),
    {
        let mut messages = stored;
        if msg.limit <= 0 {
            messages.truncate(0);
        } else if (msg.limit as usize) < messages.len() {
            messages.truncate(msg.limit as usize);
        }
        assert(stored@.take(stored@.len() as int) =~= stored@);
        messages
    }

    /// The number of the dead letters `stored`, in all and by event type.
    pub fn stats(&self, stored: &Vec<DlqMessage>, _msg: GetDlqStats) -> (r: DlqStats)
        requires
            stored@.len() <= i64::MAX,
        ensures
            r.total_messages == stored@.len(),
            breaks_down(r.by_event_type@, stored@),
    {
        let mut by_event_type: Vec<(String, i64)> = Vec::new();
        let mut k: usize = 0;
        assert(stored@.take(0) =~= Seq::empty());
        while k < stored.len()
            invariant
                k <= stored.len(),
                stored@.len() <= i64::MAX,
                breaks_down(by_event_type@, stored@.take(k as int)),
            decreases stored.len() - k,
        {
            let ghost seen = stored@.take(k as int);
            let ghost next = stored@.take(k as int + 1);
            let ghost before = by_event_type@;
            let event_type = &stored[k].event_type;
            proof {
                assert(next.drop_last() =~= seen);
                assert(next.last() == stored@[k as int]);
                assert forall|t: Seq<char>| #[trigger]
                    count_of(next, t) == count_of(seen, t) + if event_type@ == t {
                        1nat
                    } else {
                        0nat
                    } by {}
            }
            // Where the event type has an entry, count one more.
            let mut i: usize = 0;
            let mut found = false;
            while i < by_event_type.len()
                invariant_except_break
                    !found,
                invariant
                    i <= by_event_type.len(),
                    by_event_type@ == before,
                    forall|j: int| 0 <= j < i ==> (#[trigger] before[j]).0@ != event_type@,
                ensures
                    found ==> i < before.len() && before[i as int].0@ == event_type@,
                    !found ==> by_event_type@ == before && forall|j: int|
                        0 <= j < before.len() ==> (#[trigger] before[j]).0@ != event_type@,
                    found ==> by_event_type@ == before,
                decreases by_event_type.len() - i,
            {
                if by_event_type[i].0 == *event_type {
                    found = true;
                    break ;
                }
                i = i + 1;
            }
            if found {
                let count = by_event_type[i].1;
                proof {
                    lemma_count_bounded(seen, event_type@);
                }
                let entry = (by_event_type[i].0.clone(), count + 1);
                by_event_type.set(i, entry);
                proof {
                    let after = by_event_type@;
                    assert forall|a: int, b: int| 0 <= a < b < after.len() implies (
                    #[trigger] after[a]).0@ != (#[trigger] after[b]).0@ by {
                        assert(before[a].0@ != before[b].0@);
                    }
                    assert forall|a: int| 0 <= a < after.len() implies (#[trigger] after[a]).1 > 0
                        && after[a].1 == count_of(next, after[a].0@) by {
                        assert(before[a].1 == count_of(seen, before[a].0@));
                        if a != i {
                            if a < i {
                                assert(before[a].0@ != before[i as int].0@);
                            } else {
                                assert(before[i as int].0@ != before[a].0@);
                            }
                        }
                    }
                    assert forall|m: int| 0 <= m < next.len() implies exists|a: int|
                        0 <= a < after.len() && (#[trigger] after[a]).0@ == (
                        #[trigger] next[m]).event_type@ by {
                        if m < k {
                            assert(next[m] == seen[m]);
                            let a = choose|a: int|
                                0 <= a < before.len() && (#[trigger] before[a]).0@
                                    == seen[m].event_type@;
                            assert(after[a].0@ == next[m].event_type@);
                        } else {
                            assert(after[i as int].0@ == next[m].event_type@);
                        }
                    }
                }
            } else {
                proof {
                    lemma_count_is_zero(seen, before, event_type@);
                }
                by_event_type.push((event_type.clone(), 1));
                proof {
                    let after = by_event_type@;
                    assert forall|a: int, b: int| 0 <= a < b < after.len() implies (
                    #[trigger] after[a]).0@ != (#[trigger] after[b]).0@ by {
                        if b < before.len() {
                            assert(before[a].0@ != before[b].0@);
                        } else {
                            assert(before[a].0@ != event_type@);
                        }
                    }
                    assert forall|a: int| 0 <= a < after.len() implies (#[trigger] after[a]).1 > 0
                        && after[a].1 == count_of(next, after[a].0@) by {
                        if a < before.len() {
                            assert(before[a].1 == count_of(seen, before[a].0@));
                            assert(before[a].0@ != event_type@);
                        }
                    }
                    assert forall|m: int| 0 <= m < next.len() implies exists|a: int|
                        0 <= a < after.len() && (#[trigger] after[a]).0@ == (
                        #[trigger] next[m]).event_type@ by {
                        if m < k {
                            assert(next[m] == seen[m]);
                            let a = choose|a: int|
                                0 <= a < before.len() && (#[trigger] before[a]).0@
                                    == seen[m].event_type@;
                            assert(after[a].0@ == next[m].event_type@);
                        } else {
                            assert(after[before.len() as int].0@ == next[m].event_type@);
                        }
                    }
                }
            }
            k = k + 1;
        }
        assert(stored@.take(stored.len() as int) =~= stored@);
        DlqStats { total_messages: stored.len() as i64, by_event_type }
    }
}

/// An event type that a breakdown does not name has no dead letter.
proof fn lemma_count_is_zero(
    messages: Seq<DlqMessage>,
    breakdown: Seq<(String, i64)>,
    event_type: Seq<char>,
)
    requires
        breaks_down(breakdown, messages),
        forall|j: int| 0 <= j < breakdown.len() ==> (#[trigger] breakdown[j]).0@ != event_type,
    ensures
        count_of(messages, event_type) == 0,
    decreases messages.len(),
{
    if messages.len() > 0 {
        let k = messages.len() - 1;
        let a = choose|a: int|
            0 <= a < breakdown.len() && (#[trigger] breakdown[a]).0@ == (
            #[trigger] messages[k]).event_type@;
        assert(messages.last().event_type@ != event_type);
        lemma_no_occurrence(messages, event_type);
    }
}

/// An event type that none of the messages has is counted zero times.
proof fn lemma_no_occurrence(messages: Seq<DlqMessage>, event_type: Seq<char>)
    requires
        forall|k: int| 0 <= k < messages.len() ==> (#[trigger] messages[k]).event_type@ != event_type,
    ensures
        count_of(messages, event_type) == 0,
    decreases messages.len(),
{
    if messages.len() > 0 {
        assert forall|k: int| 0 <= k < messages.drop_last().len() implies (
        #[trigger] messages.drop_last()[k]).event_type@ != event_type by {
            assert(messages.drop_last()[k] == messages[k]);
        }
        lemma_no_occurrence(messages.drop_last(), event_type);
    }
}

} // verus!
