//! The coordinate store: a bounded table of weather records, searched by
//! proximity, appended to on a miss, and purged by age in bounded batches.

use crate::record::{answers, WeatherRecord};
use vstd::prelude::*;

verus! {

/// Why the store could not do what it was asked.
#[derive(Clone, Debug, PartialEq, Eq)]
pub struct StorageError {
    /// What the persistence layer said.
    pub detail: String,
}

/// What a full table says when it is offered a record.
pub open spec fn table_full() -> Seq<char> {
    "the table is full"@
}

/// The test "answers a request for this place" as a predicate on records.
pub open spec fn answering(latitude: int, longitude: int, tolerance: int) -> spec_fn(
    WeatherRecord,
) -> bool {
    |record: WeatherRecord| answers(record, latitude, longitude, tolerance)
}

/// The test "written at or before `cutoff`" as a predicate on records.
pub open spec fn stale(cutoff: int) -> spec_fn(WeatherRecord) -> bool {
    |record: WeatherRecord| record.expired(cutoff)
}

/// The test "written after `cutoff`" as a predicate on records.
pub open spec fn fresh(cutoff: int) -> spec_fn(WeatherRecord) -> bool {
    |record: WeatherRecord| !record.expired(cutoff)
}

/// The records of `table` that answer a request for the given place, in the
/// order in which the table holds them.
pub open spec fn matching(
    table: Seq<WeatherRecord>,
    latitude: int,
    longitude: int,
    tolerance: int,
) -> Seq<WeatherRecord> {
    table.filter(answering(latitude, longitude, tolerance))
}

/// How many records of `table` were written at or before `cutoff`.
pub open spec fn expired_count(table: Seq<WeatherRecord>, cutoff: int) -> nat {
    table.filter(stale(cutoff)).len()
}

/// How many records one purge removes: all the expired ones, but no more
/// than the batch allows.
pub open spec fn purge_size(table: Seq<WeatherRecord>, cutoff: int, max_batch: nat) -> nat {
    if expired_count(table, cutoff) <= max_batch {
        expired_count(table, cutoff)
    } else {
        max_batch
    }
}

/// `table` without its first `max_batch` expired records; the others keep
/// their order.
pub open spec fn purge(table: Seq<WeatherRecord>, cutoff: int, max_batch: nat) -> Seq<
    WeatherRecord,
>
    decreases table.len(),
{
    if table.len() == 0 {
        table
    } else if max_batch > 0 && table.first().expired(cutoff) {
        purge(table.drop_first(), cutoff, (max_batch - 1) as nat)
    } else {
        seq![table.first()] + purge(table.drop_first(), cutoff, max_batch)
    }
}

/// `table` after `rounds` purges in a row.
pub open spec fn purge_rounds(
    table: Seq<WeatherRecord>,
    cutoff: int,
    max_batch: nat,
    rounds: nat,
) -> Seq<WeatherRecord>
    decreases rounds,
{
    if rounds == 0 {
        table
    } else {
        purge_rounds(purge(table, cutoff, max_batch), cutoff, max_batch, (rounds - 1) as nat)
    }
}

/// A filter sees the front element and then the rest.
pub proof fn lemma_filter_front(table: Seq<WeatherRecord>, keep: spec_fn(WeatherRecord) -> bool)
    requires
        table.len() > 0,
    ensures
        table.filter(keep) == if keep(table.first()) {
            seq![table.first()] + table.drop_first().filter(keep)
        } else {
            table.drop_first().filter(keep)
        },
{
    let head = seq![table.first()];
    assert(table =~= head + table.drop_first());
    Seq::filter_distributes_over_add(head, table.drop_first(), keep);
    reveal_with_fuel(Seq::filter, 2);
    assert(head.drop_last() =~= Seq::<WeatherRecord>::empty());
    assert(head.filter(keep) =~= if keep(table.first()) {
        head
    } else {
        Seq::<WeatherRecord>::empty()
    });
    assert(Seq::<WeatherRecord>::empty() + table.drop_first().filter(keep)
        =~= table.drop_first().filter(keep));
}

/// A filter sees all but the last element and then the last.
pub proof fn lemma_filter_push(
    table: Seq<WeatherRecord>,
    record: WeatherRecord,
    keep: spec_fn(WeatherRecord) -> bool,
)
    ensures
        table.push(record).filter(keep) == if keep(record) {
            table.filter(keep).push(record)
        } else {
            table.filter(keep)
        },
{
    reveal(Seq::filter);
    assert(table.push(record).drop_last() =~= table);
}

/// One purge removes `purge_size` records, all of them expired, and keeps
/// every record written after the cutoff, in order.
pub proof fn lemma_purge(table: Seq<WeatherRecord>, cutoff: int, max_batch: nat)
    ensures
        purge(table, cutoff, max_batch).len() + purge_size(table, cutoff, max_batch)
            == table.len(),
        expired_count(purge(table, cutoff, max_batch), cutoff) + purge_size(
            table,
            cutoff,
            max_batch,
        ) == expired_count(table, cutoff),
        purge(table, cutoff, max_batch).filter(fresh(cutoff)) == table.filter(fresh(cutoff)),
    decreases table.len(),
{
    if table.len() == 0 {
        reveal(Seq::filter);
    } else {
        let rest = table.drop_first();
        let head = seq![table.first()];
        lemma_filter_front(table, stale(cutoff));
        lemma_filter_front(table, fresh(cutoff));
        if max_batch > 0 && table.first().expired(cutoff) {
            lemma_purge(rest, cutoff, (max_batch - 1) as nat);
        } else {
            lemma_purge(rest, cutoff, max_batch);
            let tail = purge(rest, cutoff, max_batch);
            let whole = head + tail;
            assert(whole.first() == table.first());
            assert(whole.drop_first() =~= tail);
            lemma_filter_front(whole, stale(cutoff));
            lemma_filter_front(whole, fresh(cutoff));
        }
    }
}

/// A table without expired records consists of its fresh records, and a
/// purge leaves it as it is.
pub proof fn lemma_nothing_expired(table: Seq<WeatherRecord>, cutoff: int, max_batch: nat)
    requires
        expired_count(table, cutoff) == 0,
    ensures
        table.filter(fresh(cutoff)) == table,
        purge(table, cutoff, max_batch) == table,
    decreases table.len(),
{
    if table.len() == 0 {
        assert(table.filter(fresh(cutoff)) =~= table) by {
            reveal(Seq::filter);
        }
    } else {
        let rest = table.drop_first();
        let head = seq![table.first()];
        lemma_filter_front(table, stale(cutoff));
        assert(!table.first().expired(cutoff)) by {
            if table.first().expired(cutoff) {
                assert(stale(cutoff)(table.first()));
                assert(table.filter(stale(cutoff)).len() == (head + rest.filter(
                    stale(cutoff),
                )).len());
            }
        }
        assert(!stale(cutoff)(table.first()));
        assert(expired_count(rest, cutoff) == 0);
        lemma_nothing_expired(rest, cutoff, max_batch);
        lemma_filter_front(table, fresh(cutoff));
        assert(fresh(cutoff)(table.first()));
        assert(table =~= head + rest);
    }
}

/// Purging in bounded batches drains any backlog: once the rounds together
/// allow for as many deletions as there are expired records, none is left,
/// and what remains is exactly the records written after the cutoff, in
/// their order.
pub proof fn lemma_rounds_drain(
    table: Seq<WeatherRecord>,
    cutoff: int,
    max_batch: nat,
    rounds: nat,
)
    requires
        rounds * max_batch >= expired_count(table, cutoff),
    ensures
        expired_count(purge_rounds(table, cutoff, max_batch, rounds), cutoff) == 0,
        purge_rounds(table, cutoff, max_batch, rounds) == table.filter(fresh(cutoff)),
    decreases rounds,
{
    if rounds == 0 {
        assert(rounds * max_batch == 0) by (nonlinear_arith)
            requires
                rounds == 0,
        ;
        lemma_nothing_expired(table, cutoff, max_batch);
    } else {
        let next = purge(table, cutoff, max_batch);
        lemma_purge(table, cutoff, max_batch);
        assert((rounds - 1) * max_batch == rounds * max_batch - max_batch) by (nonlinear_arith);
        assert((rounds - 1) * max_batch >= 0) by (nonlinear_arith)
            requires
                rounds >= 1,
                max_batch >= 0,
        ;
        lemma_rounds_drain(next, cutoff, max_batch, (rounds - 1) as nat);
    }
}

/// While a backlog lasts, every purge removes a full batch.
pub proof fn lemma_full_batch(table: Seq<WeatherRecord>, cutoff: int, max_batch: nat)
    requires
        expired_count(table, cutoff) >= max_batch,
    ensures
        purge(table, cutoff, max_batch).len() == table.len() - max_batch,
        expired_count(purge(table, cutoff, max_batch), cutoff) == expired_count(table, cutoff)
            - max_batch,
{
    lemma_purge(table, cutoff, max_batch);
}

/// The records of `rows` that answer a request for the given place, in
/// their order.
pub fn near(rows: &Vec<WeatherRecord>, latitude: i64, longitude: i64, tolerance: i64) -> (found:
    Vec<WeatherRecord>)
    ensures
        found@ == matching(rows@, latitude as int, longitude as int, tolerance as int),
{
    let ghost keep = answering(latitude as int, longitude as int, tolerance as int);
    let mut found: Vec<WeatherRecord> = Vec::new();
    let mut index: usize = 0;
    proof {
        reveal(Seq::filter);
        assert(rows@.take(0) =~= Seq::<WeatherRecord>::empty());
    }
    while index < rows.len()
        invariant
            index <= rows@.len(),
            keep == answering(latitude as int, longitude as int, tolerance as int),
            found@ == rows@.take(index as int).filter(keep),
        decreases rows@.len() - index,
    {
        let record = rows[index];
        proof {
            lemma_filter_push(rows@.take(index as int), record, keep);
            assert(rows@.take(index as int).push(record) =~= rows@.take(index + 1));
        }
        if record.is_near(latitude, longitude, tolerance) {
            found.push(record);
        }
        index += 1;
    }
    proof {
        assert(rows@.take(index as int) =~= rows@);
    }
    found
}

/// A bounded table of weather records in the order in which they were written.
pub struct CoordinateStore {
    records: Vec<WeatherRecord>,
    limit: usize,
}

impl View for CoordinateStore {
    type V = Seq<WeatherRecord>;

    closed spec fn view(&self) -> Seq<WeatherRecord> {
        self.records@
    }
}

impl CoordinateStore {
    /// The number of records that the table can hold.
    pub closed spec fn capacity(&self) -> nat {
        self.limit as nat
    }

    /// The table holds no more records than it has room for.
    pub closed spec fn wf(&self) -> bool {
        self.records@.len() <= self.limit
    }

    /// An empty table with room for `limit` records.
    pub fn new(limit: usize) -> (store: CoordinateStore)
        ensures
            store.wf(),
            store@ == Seq::<WeatherRecord>::empty(),
            store.capacity() == limit,
    {
        CoordinateStore { records: Vec::new(), limit }
    }

    pub fn len(&self) -> (count: usize)
        ensures
            count == self@.len(),
            self.wf() ==> count <= self.capacity(),
    {
        self.records.len()
    }

    pub fn is_empty(&self) -> (empty: bool)
        ensures
            empty == (self@.len() == 0),
    {
        self.records.len() == 0
    }

    pub fn limit(&self) -> (limit: usize)
        ensures
            limit == self.capacity(),
    {
        self.limit
    }

    /// The record at `index` in writing order, if there is one.
    pub fn get(&self, index: usize) -> (record: Option<WeatherRecord>)
        ensures
            record == if index < self@.len() {
                Some(self@[index as int])
            } else {
                None
            },
    {
        if index < self.records.len() {
            Some(self.records[index])
        } else {
            None
        }
    }

    /// All records that answer a request for the given place, oldest write
    /// first.
    pub fn find_near(&self, latitude: i64, longitude: i64, tolerance: i64) -> (found: Vec<
        WeatherRecord,
    >)
        ensures
            found@ == matching(self@, latitude as int, longitude as int, tolerance as int),
    {
        near(&self.records, latitude, longitude, tolerance)
    }

    /// Appends `record`, unless the table is full. Nothing already stored is
    /// overwritten.
    pub fn insert(&mut self, record: WeatherRecord) -> (outcome: Result<(), StorageError>)
        requires
            old(self).wf(),
        ensures
            final(self).wf(),
            final(self).capacity() == old(self).capacity(),
            outcome is Ok <==> old(self)@.len() < old(self).capacity(),
            outcome is Ok ==> final(self)@ == old(self)@.push(record),
            outcome matches Err(error) ==> final(self)@ == old(self)@ && error.detail@
                == table_full(),
    {
        if self.records.len() < self.limit {
            self.records.push(record);
            Ok(())
        } else {
            Err(StorageError { detail: "the table is full".to_string() })
        }
    }

    /// Removes the first `max_batch` records written at or before `cutoff`,
    /// or all of them if there are fewer, and says how many it removed.
    pub fn delete_expired(&mut self, cutoff: i64, max_batch: usize) -> (deleted: usize)
        requires
            old(self).wf(),
        ensures
            final(self).wf(),
            final(self).capacity() == old(self).capacity(),
            final(self)@ == purge(old(self)@, cutoff as int, max_batch as nat),
            deleted == purge_size(old(self)@, cutoff as int, max_batch as nat),
            final(self)@.len() == old(self)@.len() - deleted,
            expired_count(final(self)@, cutoff as int) == expired_count(old(self)@, cutoff as int)
                - deleted,
            final(self)@.filter(fresh(cutoff as int)) == old(self)@.filter(fresh(cutoff as int)),
    {
        proof {
            lemma_purge(self.records@, cutoff as int, max_batch as nat);
        }
        let ghost before = self.records@;
        let mut kept: Vec<WeatherRecord> = Vec::new();
        let mut deleted: usize = 0;
        let mut index: usize = 0;
        proof {
            assert(before.skip(0) =~= before);
            assert(kept@ + purge(before, cutoff as int, max_batch as nat) =~= purge(
                before,
                cutoff as int,
                max_batch as nat,
            ));
        }
        while index < self.records.len()
            invariant
                self.records@ == before,
                index <= before.len(),
                deleted <= max_batch,
                deleted <= index,
                kept@.len() + deleted == index,
                purge(before, cutoff as int, max_batch as nat) == kept@ + purge(
                    before.skip(index as int),
                    cutoff as int,
                    (max_batch - deleted) as nat,
                ),
            decreases before.len() - index,
        {
            let record = self.records[index];
            proof {
                assert(before.skip(index as int).first() == record);
                assert(before.skip(index as int).drop_first() =~= before.skip(index + 1));
            }
            if deleted < max_batch && record.is_expired(cutoff) {
                deleted += 1;
            } else {
                let ghost earlier = kept@;
                kept.push(record);
                proof {
                    let rest = purge(
                        before.skip(index + 1),
                        cutoff as int,
                        (max_batch - deleted) as nat,
                    );
                    assert(earlier + (seq![record] + rest) =~= kept@ + rest);
                }
            }
            index += 1;
        }
        proof {
            assert(before.skip(index as int) =~= Seq::<WeatherRecord>::empty());
            assert(kept@ + Seq::<WeatherRecord>::empty() =~= kept@);
        }
        self.records = kept;
        deleted
    }
}

} // verus!
