//! The tables that appends write, as values, and what every append keeps
//! true of them.

use vstd::prelude::*;

use super::event_store::{AppendBatch, OutboxRow, StoredEvent};

verus! {

/// The contents of the `event_store`, `outbox_messages` and
/// `aggregate_sequence` tables.
pub struct Tables {
    /// The event rows, in the order in which they were written.
    pub events: Seq<StoredEvent>,
    /// The outbox rows, in the order in which they were written.
    pub outbox: Seq<OutboxRow>,
    /// The sequence of every aggregate that has one.
    pub sequences: Map<u128, i64>,
    /// The identifiers of the events that were appended for publication.
    pub announced: Set<u128>,
}

/// Whether exactly one row of `outbox` is for the event `event_id`.
pub open spec fn one_row_for(outbox: Seq<OutboxRow>, event_id: u128) -> bool {
    exists|j: int|
        0 <= j < outbox.len() && (#[trigger] outbox[j]).event_id == event_id && forall|k: int|
            0 <= k < outbox.len() && (#[trigger] outbox[k]).event_id == event_id ==> k == j
}

/// Whether no row of `outbox` is for the event `event_id`.
pub open spec fn no_row_for(outbox: Seq<OutboxRow>, event_id: u128) -> bool {
    forall|k: int| 0 <= k < outbox.len() ==> (#[trigger] outbox[k]).event_id != event_id
}

/// Whether one of `events` has the identifier `event_id`.
pub open spec fn is_stored(events: Seq<StoredEvent>, event_id: u128) -> bool {
    exists|i: int| 0 <= i < events.len() && (#[trigger] events[i]).event_id == event_id
}

/// The identifiers of `events`.
pub open spec fn event_ids(events: Seq<StoredEvent>) -> Set<u128> {
    Set::new(|id: u128| is_stored(events, id))
}

impl Tables {
    /// Tables without a row.
    pub open spec fn empty() -> Tables {
        Tables {
            events: Seq::empty(),
            outbox: Seq::empty(),
            sequences: Map::empty(),
            announced: Set::empty(),
        }
    }

    /// The version of an aggregate: its sequence, and 0 where it has none.
    pub open spec fn current_version(self, aggregate_id: u128) -> i64 {
        if self.sequences.contains_key(aggregate_id) {
            self.sequences[aggregate_id]
        } else {
            0
        }
    }

    /// The event rows of an aggregate, in the order in which they were
    /// written.
    pub open spec fn history(self, aggregate_id: u128) -> Seq<StoredEvent> {
        self.events.filter(|row: StoredEvent| row.aggregate_id == aggregate_id)
    }

    /// Whether `batch` can still be written: its aggregate is at the version
    /// that the batch was prepared for.
    pub open spec fn accepts(self, batch: AppendBatch) -> bool {
        self.current_version(batch.aggregate_id) == batch.expected_version
    }

    /// The tables after `batch` is handed to them: every row of the batch
    /// is added where the batch can still be written, and nothing changes
    /// where it cannot.
    pub open spec fn commit(self, batch: AppendBatch) -> Tables {
        if self.accepts(batch) {
            Tables {
                events: self.events + batch.events@,
                outbox: self.outbox + batch.outbox@,
                sequences: self.sequences.insert(
                    batch.aggregate_id,
                    batch.sequence.current_sequence,
                ),
                announced: if batch.outbox@.len() > 0 {
                    self.announced.union(event_ids(batch.events@))
                } else {
                    self.announced
                },
            }
        } else {
            self
        }
    }

    /// Every aggregate has as many events as its version says, and they are
    /// numbered 1, 2, 3 and so on in the order of its history.
    pub open spec fn versions_agree(self) -> bool {
        forall|aggregate_id: u128|
            #![trigger self.history(aggregate_id)]
            self.history(aggregate_id).len() == self.current_version(aggregate_id) && forall|
                i: int,
            |
                0 <= i < self.history(aggregate_id).len() ==> (#[trigger] self.history(
                    aggregate_id,
                )[i]).sequence_number == i + 1
    }

    /// No two events share an identifier; every outbox row, and every
    /// identifier appended for publication, is that of a stored event; an
    /// event that was appended for publication has exactly one outbox row,
    /// and any other event has none.
    pub open spec fn outbox_agrees(self) -> bool {
        &&& forall|id: u128| #[trigger] self.announced.contains(id) ==> is_stored(self.events, id)
        &&& forall|i: int, j: int|
            0 <= i < j < self.events.len() ==> (#[trigger] self.events[i]).event_id != (
            #[trigger] self.events[j]).event_id
        &&& forall|k: int|
            0 <= k < self.outbox.len() ==> is_stored(
                self.events,
                (#[trigger] self.outbox[k]).event_id,
            )
        &&& forall|i: int|
            0 <= i < self.events.len() ==> if self.announced.contains(
                (#[trigger] self.events[i]).event_id,
            ) {
                one_row_for(self.outbox, self.events[i].event_id)
            } else {
                no_row_for(self.outbox, self.events[i].event_id)
            }
    }

    /// Whether the events of `batch` carry identifiers that are new to these
    /// tables and differ from one another.
    pub open spec fn new_to(self, batch: AppendBatch) -> bool {
        &&& forall|i: int, j: int|
            0 <= i < j < batch.events@.len() ==> (#[trigger] batch.events@[i]).event_id != (
            #[trigger] batch.events@[j]).event_id
        &&& forall|i: int|
            0 <= i < batch.events@.len() ==> !is_stored(
                self.events,
                (#[trigger] batch.events@[i]).event_id,
            )
    }
}

/// A filter that every element passes keeps the sequence as it is.
proof fn lemma_filter_keeps_all<A>(s: Seq<A>, pred: spec_fn(A) -> bool)
    requires
        forall|i: int| 0 <= i < s.len() ==> pred(#[trigger] s[i]),
    ensures
        s.filter(pred) == s,
    decreases s.len(),
{
    reveal(Seq::filter);
    if s.len() > 0 {
        lemma_filter_keeps_all(s.drop_last(), pred);
        assert(s.drop_last().push(s.last()) == s);
    }
}

/// A filter that no element passes leaves nothing.
proof fn lemma_filter_drops_all<A>(s: Seq<A>, pred: spec_fn(A) -> bool)
    requires
        forall|i: int| 0 <= i < s.len() ==> !pred(#[trigger] s[i]),
    ensures
        s.filter(pred) == Seq::<A>::empty(),
    decreases s.len(),
{
    reveal(Seq::filter);
    if s.len() > 0 {
        lemma_filter_drops_all(s.drop_last(), pred);
    }
}

/// Empty tables agree with themselves.
pub proof fn law_empty_tables_agree()
    ensures
        Tables::empty().versions_agree(),
        Tables::empty().outbox_agrees(),
        forall|aggregate_id: u128| Tables::empty().current_version(aggregate_id) == 0,
{
    reveal(Seq::filter);
    assert forall|aggregate_id: u128| #![trigger Tables::empty().history(aggregate_id)]
        Tables::empty().history(aggregate_id).len() == 0 by {
        lemma_filter_drops_all(
            Tables::empty().events,
            |row: StoredEvent| row.aggregate_id == aggregate_id,
        );
    }
}

/// Writing a well-sequenced batch keeps versions and histories in step: if
/// every aggregate had as many events as its version said, numbered from 1
/// without a gap, then so it is after the batch. The aggregate of a batch
/// that was written is at the batch's new version and has the batch's events
/// at the end of its history; every other aggregate is as it was.
pub proof fn law_commit_keeps_versions(tables: Tables, batch: AppendBatch)
    requires
        tables.versions_agree(),
        batch.well_sequenced(),
    ensures
        tables.commit(batch).versions_agree(),
        tables.accepts(batch) ==> tables.commit(batch).current_version(batch.aggregate_id)
            == batch.spec_new_version() && tables.commit(batch).history(batch.aggregate_id)
            == tables.history(batch.aggregate_id) + batch.events@,
        forall|other: u128|
            other != batch.aggregate_id ==> tables.commit(batch).current_version(other)
                == tables.current_version(other) && #[trigger] tables.commit(batch).history(other)
                == tables.history(other),
{
    let after = tables.commit(batch);
    if tables.accepts(batch) {
        assert forall|id: u128| #![trigger after.history(id)]
            after.history(id) == if id == batch.aggregate_id {
                tables.history(id) + batch.events@
            } else {
                tables.history(id)
            } by {
            let pred = |row: StoredEvent| row.aggregate_id == id;
            Seq::filter_distributes_over_add(tables.events, batch.events@, pred);
            if id == batch.aggregate_id {
                lemma_filter_keeps_all(batch.events@, pred);
            } else {
                lemma_filter_drops_all(batch.events@, pred);
            }
        }
        assert forall|id: u128| #![trigger after.history(id)]
            after.history(id).len() == after.current_version(id) && forall|i: int|
                0 <= i < after.history(id).len() ==> (#[trigger] after.history(
                    id,
                )[i]).sequence_number == i + 1 by {
            let before = tables.history(id);
            assert(before.len() == tables.current_version(id));
            assert forall|i: int| 0 <= i < after.history(id).len() implies (
            #[trigger] after.history(id)[i]).sequence_number == i + 1 by {
                if i < before.len() {
                    assert(before[i].sequence_number == i + 1);
                } else {
                    assert(after.history(id)[i] == batch.events@[i - before.len()]);
                }
            }
        }
    }
}

/// A batch that was prepared for another version than the aggregate has
/// writes nothing.
pub proof fn law_stale_batch_writes_nothing(tables: Tables, batch: AppendBatch)
    requires
        tables.current_version(batch.aggregate_id) != batch.expected_version,
    ensures
        tables.commit(batch) == tables,
{
}

/// Writing a batch keeps the outbox in step with the events: if every event
/// that was appended for publication had exactly one outbox row, and every
/// other event none, then so it is after a batch whose events are new and
/// whose outbox rows mirror its events.
pub proof fn law_commit_keeps_outbox(tables: Tables, batch: AppendBatch, publish: bool)
    requires
        tables.outbox_agrees(),
        tables.new_to(batch),
        batch.events@.len() > 0,
        batch.mirrored(publish),
    ensures
        tables.commit(batch).outbox_agrees(),
        tables.accepts(batch) ==> forall|i: int|
            0 <= i < batch.events@.len() ==> if publish {
                one_row_for(tables.commit(batch).outbox, (#[trigger] batch.events@[i]).event_id)
            } else {
                no_row_for(tables.commit(batch).outbox, batch.events@[i].event_id)
            },
{
    let after = tables.commit(batch);
    if tables.accepts(batch) {
        let old_events = tables.events.len() as int;
        let old_rows = tables.outbox.len() as int;
        assert forall|i: int, j: int| 0 <= i < j < after.events.len() implies (
        #[trigger] after.events[i]).event_id != (#[trigger] after.events[j]).event_id by {
            if j >= old_events && i < old_events {
                assert(!is_stored(tables.events, batch.events@[j - old_events].event_id));
                assert(tables.events[i].event_id != batch.events@[j - old_events].event_id);
            } else if i >= old_events {
                assert(batch.events@[i - old_events].event_id != batch.events@[j
                    - old_events].event_id);
            }
        }
        assert forall|id: u128| #[trigger] after.announced.contains(id) implies is_stored(
            after.events,
            id,
        ) by {
            if tables.announced.contains(id) {
                let i = choose|i: int|
                    0 <= i < tables.events.len() && (#[trigger] tables.events[i]).event_id == id;
                assert(after.events[i].event_id == id);
            } else {
                let b = choose|b: int|
                    0 <= b < batch.events@.len() && (#[trigger] batch.events@[b]).event_id == id;
                assert(after.events[old_events + b].event_id == id);
            }
        }
        assert forall|k: int| 0 <= k < after.outbox.len() implies is_stored(
            after.events,
            (#[trigger] after.outbox[k]).event_id,
        ) by {
            if k < old_rows {
                let i = choose|i: int|
                    0 <= i < tables.events.len() && (#[trigger] tables.events[i]).event_id
                        == tables.outbox[k].event_id;
                assert(after.events[i].event_id == after.outbox[k].event_id);
            } else {
                assert(batch.outbox@[k - old_rows].event_id == batch.events@[k
                    - old_rows].event_id);
                assert(after.events[old_events + (k - old_rows)].event_id
                    == after.outbox[k].event_id);
            }
        }
        assert forall|i: int| 0 <= i < after.events.len() implies if after.announced.contains(
            (#[trigger] after.events[i]).event_id,
        ) {
            one_row_for(after.outbox, after.events[i].event_id)
        } else {
            no_row_for(after.outbox, after.events[i].event_id)
        } by {
            let id = after.events[i].event_id;
            if i < old_events {
                // An event that was there: no row of the batch is for it.
                assert(tables.events[i].event_id == id);
                assert(is_stored(tables.events, id));
                assert forall|k: int| 0 <= k < batch.outbox@.len() implies (
                #[trigger] batch.outbox@[k]).event_id != id by {
                    assert(batch.outbox@[k].event_id == batch.events@[k].event_id);
                    assert(!is_stored(tables.events, batch.events@[k].event_id));
                }
                assert(!event_ids(batch.events@).contains(id)) by {
                    if is_stored(batch.events@, id) {
                        let b = choose|b: int|
                            0 <= b < batch.events@.len() && (#[trigger] batch.events@[b]).event_id
                                == id;
                        assert(!is_stored(tables.events, batch.events@[b].event_id));
                    }
                }
                assert(after.announced.contains(id) == tables.announced.contains(id));
                if tables.announced.contains(id) {
                    let j = choose|j: int|
                        0 <= j < tables.outbox.len() && (#[trigger] tables.outbox[j]).event_id == id
                            && forall|k: int|
                            0 <= k < tables.outbox.len() && (#[trigger] tables.outbox[k]).event_id
                                == id ==> k == j;
                    assert(after.outbox[j].event_id == id);
                    assert forall|k: int|
                        0 <= k < after.outbox.len() && (#[trigger] after.outbox[k]).event_id
                            == id implies k == j by {
                        if k >= old_rows {
                            assert(batch.outbox@[k - old_rows].event_id != id);
                        } else {
                            assert(tables.outbox[k].event_id == id);
                        }
                    }
                } else {
                    assert forall|k: int| 0 <= k < after.outbox.len() implies (
                    #[trigger] after.outbox[k]).event_id != id by {
                        if k >= old_rows {
                            assert(batch.outbox@[k - old_rows].event_id != id);
                        } else {
                            assert(tables.outbox[k].event_id != id);
                        }
                    }
                }
            } else {
                // An event of the batch: no row that was there is for it.
                let b = i - old_events;
                assert(batch.events@[b].event_id == id);
                assert(!is_stored(tables.events, id));
                assert forall|k: int| 0 <= k < old_rows implies (
                #[trigger] tables.outbox[k]).event_id != id by {
                    assert(is_stored(tables.events, tables.outbox[k].event_id));
                }
                if batch.outbox@.len() > 0 {
                    assert(is_stored(batch.events@, id));
                    assert(after.announced.contains(id));
                    assert(after.outbox[old_rows + b].event_id == id) by {
                        assert(batch.outbox@[b].event_id == batch.events@[b].event_id);
                    }
                    assert forall|k: int|
                        0 <= k < after.outbox.len() && (#[trigger] after.outbox[k]).event_id
                            == id implies k == old_rows + b by {
                        if k >= old_rows {
                            let c = k - old_rows;
                            assert(batch.outbox@[c].event_id == batch.events@[c].event_id);
                            if c < b {
                                assert(batch.events@[c].event_id != batch.events@[b].event_id);
                            } else if c > b {
                                assert(batch.events@[b].event_id != batch.events@[c].event_id);
                            }
                        } else {
                            assert(tables.outbox[k].event_id != id);
                        }
                    }
                } else {
                    assert(after.outbox == tables.outbox);
                    assert(!after.announced.contains(id));
                }
            }
        }
        assert forall|i: int| 0 <= i < batch.events@.len() implies if publish {
            one_row_for(after.outbox, (#[trigger] batch.events@[i]).event_id)
        } else {
            no_row_for(after.outbox, batch.events@[i].event_id)
        } by {
            let id = batch.events@[i].event_id;
            assert(after.events[old_events + i].event_id == id);
            if publish {
                assert(is_stored(batch.events@, id));
                assert(after.announced.contains(id));
            } else {
                assert(!is_stored(tables.events, id));
                assert(!after.announced.contains(id));
            }
        }
    }
}

} // verus!
