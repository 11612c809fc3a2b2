//! The relay by polling: the outbox table is read again and again for rows
//! that are newer than the last one published.
//!
//! It remembers the identifiers it has published to pass over rows that a
//! later read brings again, and forgets them all once there are more than a
//! thousand: a row may then be published twice.

use std::collections::HashSet;
use vstd::prelude::*;

use crate::messaging::redpanda::PublishError;
use crate::platform::{now, uuid_text, uuid_to_string, Timestamp};

verus! {

broadcast use vstd::std_specs::hash::group_hash_axioms;

/// The name under which this consumer keeps its offset.
pub const CONSUMER_ID: &'static str = "outbox-processor-v1";

/// The pause between two reads of the outbox table, in seconds.
pub const POLL_INTERVAL_SECS: u64 = 2;

/// How many identifiers are remembered at most.
pub const MAX_REMEMBERED_IDS: usize = 1000;

/// A row of the outbox table, as the poll reads it.
#[derive(Debug)]
pub struct OutboxMessage {
    pub id: u128,
    pub aggregate_id: u128,
    pub event_type: String,
    pub payload: String,
    pub created_at: Timestamp,
}

/// What became of a row that a poll brought.
#[derive(Debug, Clone, Copy, PartialEq, Eq, Structural)]
pub enum Polled {
    /// The row is remembered as published: it is passed over.
    AlreadyProcessed,
    /// The broker has the record.
    Published,
    /// The publication failed: the next poll brings the row again.
    Failed,
}

/// How far the poll has come.
pub struct PollState {
    /// The creation time of the last row published.
    pub last_processed_time: Timestamp,
    /// The identifiers of rows published that are remembered.
    pub processed_ids: Set<u128>,
}

impl PollState {
    /// The state once the row `id`, created at `created_at`, is published:
    /// the row is the last processed and is remembered, unless that makes
    /// more than a thousand, in which case all are forgotten.
    pub open spec fn published(self, id: u128, created_at: Timestamp) -> PollState {
        PollState {
            last_processed_time: created_at,
            processed_ids: if self.processed_ids.insert(id).len() > MAX_REMEMBERED_IDS {
                Set::empty()
            } else {
                self.processed_ids.insert(id)
            },
        }
    }

    /// The state after one row ended as `outcome`.
    pub open spec fn after(self, message: OutboxMessage, outcome: Polled) -> PollState {
        match outcome {
            Polled::Published => self.published(message.id, message.created_at),
            _ => self,
        }
    }

    /// The state after the rows `messages` ended as `outcomes`, in order.
    pub open spec fn after_all(self, messages: Seq<OutboxMessage>, outcomes: Seq<Polled>) -> PollState
        decreases outcomes.len(),
    {
        if outcomes.len() == 0 || messages.len() < outcomes.len() {
            self
        } else {
            self.after_all(messages, outcomes.drop_last()).after(
                messages[outcomes.len() - 1],
                outcomes.last(),
            )
        }
    }
}

/// Whether `messages` are in the order of their creation time, oldest first.
pub open spec fn in_creation_order(messages: Seq<OutboxMessage>) -> bool {
    forall|i: int, j: int|
        0 <= i <= j < messages.len() ==> (#[trigger] messages[i]).created_at.millis <= (
        #[trigger] messages[j]).created_at.millis
}

/// `sorted` with `message` put in after every row that is not younger than
/// it.
pub open spec fn put_in(sorted: Seq<OutboxMessage>, message: OutboxMessage) -> Seq<OutboxMessage>
    decreases sorted.len(),
{
    if sorted.len() > 0 && sorted.last().created_at.millis > message.created_at.millis {
        put_in(sorted.drop_last(), message).push(sorted.last())
    } else {
        sorted.push(message)
    }
}

/// `messages` in the order of their creation time, oldest first; rows of
/// the same time keep the order in which they came.
pub open spec fn by_creation_time(messages: Seq<OutboxMessage>) -> Seq<OutboxMessage>
    decreases messages.len(),
{
    if messages.len() == 0 {
        Seq::empty()
    } else {
        put_in(by_creation_time(messages.drop_last()), messages.last())
    }
}

/// Where `message` goes into `sorted`: after the last row that is not
/// younger than it.
pub open spec fn place_of(sorted: Seq<OutboxMessage>, message: OutboxMessage) -> int
    decreases sorted.len(),
{
    if sorted.len() > 0 && sorted.last().created_at.millis > message.created_at.millis {
        place_of(sorted.drop_last(), message)
    } else {
        sorted.len() as int
    }
}

proof fn lemma_put_in_is_insert(sorted: Seq<OutboxMessage>, message: OutboxMessage)
    ensures
        0 <= place_of(sorted, message) <= sorted.len(),
        put_in(sorted, message) == sorted.insert(place_of(sorted, message), message),
        forall|k: int|
            place_of(sorted, message) <= k < sorted.len() ==> (#[trigger] sorted[k]).created_at.millis
                > message.created_at.millis,
        place_of(sorted, message) > 0 ==> sorted[place_of(sorted, message) - 1].created_at.millis
            <= message.created_at.millis,
    decreases sorted.len(),
{
    if sorted.len() > 0 && sorted.last().created_at.millis > message.created_at.millis {
        let rest = sorted.drop_last();
        lemma_put_in_is_insert(rest, message);
        let at = place_of(rest, message);
        assert(rest.insert(at, message).push(sorted.last()) =~= sorted.insert(at, message));
        assert forall|k: int| at <= k < sorted.len() implies (#[trigger] sorted[k]).created_at.millis
            > message.created_at.millis by {
            if k < rest.len() {
                assert(rest[k] == sorted[k]);
            }
        }
    } else {
        assert(sorted.push(message) =~= sorted.insert(sorted.len() as int, message));
    }
}

/// The place of a row is the one place that has only younger rows after it
/// and a row that is not younger before it.
proof fn lemma_place_is_unique(sorted: Seq<OutboxMessage>, message: OutboxMessage, at: int)
    requires
        0 <= at <= sorted.len(),
        forall|k: int|
            at <= k < sorted.len() ==> (#[trigger] sorted[k]).created_at.millis
                > message.created_at.millis,
        at > 0 ==> sorted[at - 1].created_at.millis <= message.created_at.millis,
    ensures
        at == place_of(sorted, message),
    decreases sorted.len(),
{
    if sorted.len() > 0 && sorted.last().created_at.millis > message.created_at.millis {
        assert(at < sorted.len());
        let rest = sorted.drop_last();
        assert forall|k: int| at <= k < rest.len() implies (#[trigger] rest[k]).created_at.millis
            > message.created_at.millis by {
            assert(rest[k] == sorted[k]);
        }
        if at > 0 {
            assert(rest[at - 1] == sorted[at - 1]);
        }
        lemma_place_is_unique(rest, message, at);
    } else if sorted.len() > 0 {
        if at < sorted.len() {
            assert(sorted[sorted.len() - 1].created_at.millis > message.created_at.millis);
        }
    }
}

/// Whether `publish` can have answered `outcome` for the record of
/// `message`: the event's type as topic, the row's identifier as text as
/// key, and the payload as it is stored.
pub open spec fn record_sent<F: Fn(&String, &String, &String) -> Result<(), PublishError>>(
    publish: F,
    message: OutboxMessage,
    succeeded: bool,
) -> bool {
    exists|key: String, outcome: Result<(), PublishError>| #[trigger]
        call_ensures(publish, (&message.event_type, &key, &message.payload), outcome) && key@
            == uuid_text(message.id) && (outcome is Ok) == succeeded
}

/// Whether `publish` accepts the record of `message`.
pub open spec fn takes_record<F: Fn(&String, &String, &String) -> Result<(), PublishError>>(
    publish: F,
    message: OutboxMessage,
) -> bool {
    forall|key: String|
        key@ == uuid_text(message.id) ==> #[trigger] call_requires(
            publish,
            (&message.event_type, &key, &message.payload),
        )
}

/// Whether `save_offset` can have answered for the offset that `message`
/// gives: its creation time and its identifier.
pub open spec fn offset_saved<G: Fn(Timestamp, u128) -> bool>(
    save_offset: G,
    message: OutboxMessage,
) -> bool {
    exists|answer: bool| #[trigger]
        call_ensures(save_offset, (message.created_at, message.id), answer)
}

/// The relay by polling: how far it has come.
pub struct CdcProcessor {
    pub last_processed_time: Timestamp,
    pub processed_ids: HashSet<u128>,
}

impl View for CdcProcessor {
    type V = PollState;

    open spec fn view(&self) -> PollState {
        PollState {
            last_processed_time: self.last_processed_time,
            processed_ids: self.processed_ids@,
        }
    }
}

impl CdcProcessor {
    /// A relay that resumes from the offset that was stored, remembering
    /// the row it names; without a stored offset it starts from now and
    /// remembers nothing.
    pub fn new(offset: Option<(Timestamp, u128)>) -> (r: Self)
        ensures
            match offset {
                Some((time, id)) => r@.last_processed_time == time && r@.processed_ids
                    =~= set![id],
                None => r@.processed_ids =~= Set::<u128>::empty(),
            },
    {
        let mut processed_ids: HashSet<u128> = HashSet::new();
        match offset {
            Some((time, id)) => {
                processed_ids.insert(id);
                CdcProcessor { last_processed_time: time, processed_ids }
            },
            None => CdcProcessor { last_processed_time: now(), processed_ids },
        }
    }

    /// Puts the rows that a read returned in the order of their creation
    /// time, oldest first; rows of the same time keep their order. Every row
    /// is kept, and none is added.
    pub fn fetch_new_messages(&self, rows: Vec<OutboxMessage>) -> (r: Vec<OutboxMessage>)
        ensures
            r@ == by_creation_time(rows@),
            in_creation_order(r@),
            r@.to_multiset() == rows@.to_multiset(),
    {
        let mut pending = rows;
        let mut sorted: Vec<OutboxMessage> = Vec::new();
        proof {
            broadcast use vstd::multiset::group_multiset_axioms;
            broadcast use vstd::seq_lib::group_to_multiset_ensures;

            assert(sorted@.to_multiset() =~= vstd::multiset::Multiset::<OutboxMessage>::empty());
        }
        let ghost mut done: int = 0;
        assert(rows@.take(0) =~= Seq::empty());
        assert(rows@.skip(0) =~= rows@);
        while pending.len() > 0
            invariant
                0 <= done <= rows@.len(),
                pending@ == rows@.skip(done),
                sorted@ == by_creation_time(rows@.take(done)),
                in_creation_order(sorted@),
                sorted@.to_multiset().add(pending@.to_multiset()) == rows@.to_multiset(),
            decreases pending.len(),
        {
            let ghost pending_before = pending@;
            let ghost sorted_before = sorted@;
            let message = pending.remove(0);
            proof {
                lemma_put_in_is_insert(sorted_before, message);
                assert(message == rows@[done]);
                assert(rows@.take(done + 1).drop_last() =~= rows@.take(done));
                assert(rows@.take(done + 1).last() == rows@[done]);
                assert(pending@ =~= rows@.skip(done + 1));
            }
            // The row goes after every row that is not younger.
            let mut at: usize = sorted.len();
            while at > 0 && sorted[at - 1].created_at.millis > message.created_at.millis
                invariant
                    at <= sorted.len(),
                    sorted@ == sorted_before,
                    forall|k: int|
                        at <= k < sorted@.len() ==> (#[trigger] sorted@[k]).created_at.millis
                            > message.created_at.millis,
                decreases at,
            {
                at = at - 1;
            }
            assert(at == place_of(sorted_before, message)) by {
                lemma_place_is_unique(sorted_before, message, at as int);
            }
            sorted.insert(at, message);
            proof {
                done = done + 1;
            }
            proof {
                broadcast use vstd::multiset::group_multiset_axioms;
                broadcast use vstd::seq_lib::group_to_multiset_ensures;

                assert(sorted@ == sorted_before.insert(at as int, message));
                vstd::seq_lib::to_multiset_insert(sorted_before, at as int, message);
                vstd::seq_lib::to_multiset_remove(pending_before, 0);
                assert(pending@ == pending_before.remove(0));
                assert(pending_before[0] == message);
                assert(sorted@.to_multiset().add(pending@.to_multiset())
                    =~= sorted_before.to_multiset().add(pending_before.to_multiset()));
                assert forall|i: int, j: int| 0 <= i <= j < sorted@.len() implies (
                #[trigger] sorted@[i]).created_at.millis <= (
                #[trigger] sorted@[j]).created_at.millis by {
                    let a = if i < at {
                        i
                    } else {
                        i - 1
                    };
                    let b = if j < at {
                        j
                    } else {
                        j - 1
                    };
                    if i != at && j != at {
                        assert(sorted_before[a].created_at.millis
                            <= sorted_before[b].created_at.millis);
                    } else if i == at && j != at {
                        assert(sorted_before[b].created_at.millis > message.created_at.millis);
                    } else if j == at && i != at {
                        if at > 0 {
                            assert(sorted_before[a].created_at.millis <= sorted_before[at
                                - 1].created_at.millis);
                        }
                    }
                }
            }
        }
        proof {
            broadcast use vstd::multiset::group_multiset_axioms;
            broadcast use vstd::seq_lib::group_to_multiset_ensures;

            assert(pending@.to_multiset() =~= vstd::multiset::Multiset::<OutboxMessage>::empty());
            assert(sorted@.to_multiset() =~= rows@.to_multiset());
            assert(rows@.take(done) =~= rows@);
        }
        sorted
    }

    /// Relays the rows that a poll brought, in the order given: `publish`
    /// hands a record to the broker, and `save_offset` stores how far the
    /// relay has come.
    ///
    /// A row that is remembered is passed over. Any other row is published,
    /// once: where that succeeds the row is the last processed and is
    /// remembered, and the offset is stored; where it fails nothing
    /// changes. The outcomes come back in the order of the rows.
    ///
    /// `publish` is asked for no record but that of a row of the batch, and
    /// `save_offset` is handed nothing but the creation time and the
    /// identifier of a row of the batch, once for each row published: so
    /// neither need accept anything else. Whether the offset was stored
    /// changes nothing here.
    pub fn process_batch<
        F: Fn(&String, &String, &String) -> Result<(), PublishError>,
        G: Fn(Timestamp, u128) -> bool,
    >(&mut self, messages: &Vec<OutboxMessage>, publish: F, save_offset: G) -> (outcomes: Vec<
        Polled,
    >)
        requires
            forall|i: int| 0 <= i < messages@.len() ==> takes_record(publish, #[trigger] messages@[i]),
            forall|i: int|
                0 <= i < messages@.len() ==> call_requires(
                    save_offset,
                    ((#[trigger] messages@[i]).created_at, messages@[i].id),
                ),
        ensures
            outcomes@.len() == messages@.len(),
            final(self)@ == old(self)@.after_all(messages@, outcomes@),
            forall|i: int|
                0 <= i < messages@.len() ==> match #[trigger] outcomes@[i] {
                    Polled::AlreadyProcessed => old(self)@.after_all(
                        messages@,
                        outcomes@.take(i),
                    ).processed_ids.contains(messages@[i].id),
                    Polled::Published => !old(self)@.after_all(
                        messages@,
                        outcomes@.take(i),
                    ).processed_ids.contains(messages@[i].id) && record_sent(
                        publish,
                        messages@[i],
                        true,
                    ) && offset_saved(save_offset, messages@[i]),
                    Polled::Failed => !old(self)@.after_all(
                        messages@,
                        outcomes@.take(i),
                    ).processed_ids.contains(messages@[i].id) && record_sent(
                        publish,
                        messages@[i],
                        false,
                    ),
                },
    {
        let mut outcomes: Vec<Polled> = Vec::new();
        let mut i: usize = 0;
        while i < messages.len()
            invariant
                i <= messages.len(),
                outcomes@.len() == i,
                self@ == old(self)@.after_all(messages@, outcomes@),
                forall|i: int|
                    0 <= i < messages@.len() ==> takes_record(publish, #[trigger] messages@[i]),
                forall|i: int|
                    0 <= i < messages@.len() ==> call_requires(
                        save_offset,
                        ((#[trigger] messages@[i]).created_at, messages@[i].id),
                    ),
                forall|k: int|
                    0 <= k < i ==> match #[trigger] outcomes@[k] {
                        Polled::AlreadyProcessed => old(self)@.after_all(
                            messages@,
                            outcomes@.take(k),
                        ).processed_ids.contains(messages@[k].id),
                        Polled::Published => !old(self)@.after_all(
                            messages@,
                            outcomes@.take(k),
                        ).processed_ids.contains(messages@[k].id) && record_sent(
                            publish,
                            messages@[k],
                            true,
                        ) && offset_saved(save_offset, messages@[k]),
                        Polled::Failed => !old(self)@.after_all(
                            messages@,
                            outcomes@.take(k),
                        ).processed_ids.contains(messages@[k].id) && record_sent(
                            publish,
                            messages@[k],
                            false,
                        ),
                    },
            decreases messages.len() - i,
        {
            let ghost done = outcomes@;
            let ghost state = self@;
            let message = &messages[i];
            let outcome = if self.processed_ids.contains(&message.id) {
                Polled::AlreadyProcessed
            } else {
                let key = uuid_to_string(message.id);
                assert(takes_record(publish, messages@[i as int]));
                match publish(&message.event_type, &key, &message.payload) {
                    Ok(_) => {
                        assert(record_sent(publish, *message, true));
                        self.last_processed_time = message.created_at;
                        self.processed_ids.insert(message.id);
                        if self.processed_ids.len() > MAX_REMEMBERED_IDS {
                            self.processed_ids.clear();
                        }
                        let saved = save_offset(message.created_at, message.id);
                        assert(call_ensures(save_offset, (message.created_at, message.id), saved));
                        Polled::Published
                    },
                    Err(_) => {
                        assert(record_sent(publish, *message, false));
                        Polled::Failed
                    },
                }
            };
            outcomes.push(outcome);
            proof {
                assert(outcomes@.drop_last() =~= done);
                assert(self@.processed_ids =~= state.after(*message, outcome).processed_ids);
                assert(self@ == state.after(*message, outcome));
                assert forall|k: int| 0 <= k <= i implies outcomes@.take(k) =~= done.take(k) by {}
            }
            i = i + 1;
        }
        outcomes
    }
}

} // verus!
