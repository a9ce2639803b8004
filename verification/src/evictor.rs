//! The eviction worker's decisions.
//!
//! The worker waits one poll interval for a cancellation; if none came, it
//! purges one bounded batch of expired records and waits again. It leaves
//! the loop only when it is cancelled: a failed purge is never fatal.

use crate::record::WeatherRecord;
use crate::store::{
    expired_count, lemma_filter_front, lemma_nothing_expired, purge, stale, CoordinateStore,
};
use vstd::prelude::*;

verus! {

/// Seconds between two looks at the table, and the longest that a
/// cancellation goes unnoticed.
pub const POLL_INTERVAL_SECS: u64 = 1;

/// The most records that one tick removes.
pub const EVICTION_BATCH: usize = 10;

/// Where the worker stands.
#[derive(Clone, Copy, Debug, PartialEq, Eq)]
pub enum EvictorState {
    /// Created, not yet started.
    Idle,
    /// In its loop.
    Running,
    /// Out of its loop, for good.
    Cancelled,
}

/// What happened outside.
#[derive(Clone, Copy, Debug, PartialEq, Eq)]
pub enum EvictorEvent {
    /// The worker was started.
    Started,
    /// A poll interval went by without a cancellation; it is now `now`.
    Elapsed { now: i64 },
    /// The store removed this many records.
    Purged { deleted: usize },
    /// The store failed to purge.
    PurgeFailed,
    /// A cancellation came.
    CancelRequested,
}

/// What the worker does next.
#[derive(Clone, Copy, Debug, PartialEq, Eq)]
pub enum EvictorAction {
    /// Wait for a cancellation, at most this many seconds.
    Wait { seconds: u64 },
    /// Remove at most `max_batch` records written at or before `cutoff`.
    Purge { cutoff: i64, max_batch: usize },
    /// Leave the loop.
    Exit,
    /// The event does not concern a worker in this state.
    Ignore,
}

/// The worker: its state and the time-to-live it was started with.
#[derive(Clone, Copy, Debug, PartialEq, Eq)]
pub struct Evictor {
    pub state: EvictorState,
    pub ttl: u64,
}

/// The latest instant of writing that counts as expired at `now`.
pub open spec fn cutoff_at(now: int, ttl: int) -> int {
    now - ttl
}

/// Whether the store can be asked about `cutoff`. Below this range nothing
/// can be expired, since no record carries so early an instant.
pub open spec fn representable(cutoff: int) -> bool {
    i64::MIN <= cutoff <= i64::MAX
}

/// What a running worker does when a poll interval has gone by.
pub open spec fn tick_action(now: int, ttl: int) -> EvictorAction {
    if representable(cutoff_at(now, ttl)) {
        EvictorAction::Purge { cutoff: cutoff_at(now, ttl) as i64, max_batch: EVICTION_BATCH }
    } else {
        EvictorAction::Wait { seconds: POLL_INTERVAL_SECS }
    }
}

/// The state that follows `state` on `event`.
pub open spec fn next_state(state: EvictorState, event: EvictorEvent) -> EvictorState {
    match (state, event) {
        (EvictorState::Cancelled, _) => EvictorState::Cancelled,
        (_, EvictorEvent::CancelRequested) => EvictorState::Cancelled,
        (EvictorState::Idle, EvictorEvent::Started) => EvictorState::Running,
        (other, _) => other,
    }
}

/// The action that a worker in `state` takes on `event`.
pub open spec fn next_action(state: EvictorState, ttl: int, event: EvictorEvent) -> EvictorAction {
    match (state, event) {
        (EvictorState::Cancelled, _) => EvictorAction::Exit,
        (_, EvictorEvent::CancelRequested) => EvictorAction::Exit,
        (EvictorState::Idle, EvictorEvent::Started) => EvictorAction::Wait {
            seconds: POLL_INTERVAL_SECS,
        },
        (EvictorState::Idle, _) => EvictorAction::Ignore,
        (EvictorState::Running, EvictorEvent::Started) => EvictorAction::Ignore,
        (EvictorState::Running, EvictorEvent::Elapsed { now }) => tick_action(now as int, ttl),
        (EvictorState::Running, EvictorEvent::Purged { .. }) => EvictorAction::Wait {
            seconds: POLL_INTERVAL_SECS,
        },
        (EvictorState::Running, EvictorEvent::PurgeFailed) => EvictorAction::Wait {
            seconds: POLL_INTERVAL_SECS,
        },
    }
}

/// The cutoff at `now`, where the store can be asked about it.
pub fn cutoff(now: i64, ttl: u64) -> (at: Option<i64>)
    ensures
        at == if representable(cutoff_at(now as int, ttl as int)) {
            Some(cutoff_at(now as int, ttl as int) as i64)
        } else {
            None
        },
{
    let exact: i128 = now as i128 - ttl as i128;
    if exact >= i64::MIN as i128 {
        Some(exact as i64)
    } else {
        None
    }
}

impl Evictor {
    /// A worker that waits to be started.
    pub fn new(ttl: u64) -> (worker: Evictor)
        ensures
            worker == (Evictor { state: EvictorState::Idle, ttl }),
    {
        Evictor { state: EvictorState::Idle, ttl }
    }

    /// Whether the worker has left its loop.
    pub fn is_cancelled(&self) -> (gone: bool)
        ensures
            gone == (self.state == EvictorState::Cancelled),
    {
        match self.state {
            EvictorState::Cancelled => true,
            _ => false,
        }
    }

    /// Takes one event, moves to the next state and says what to do.
    pub fn step(&mut self, event: EvictorEvent) -> (action: EvictorAction)
        ensures
            final(self).ttl == old(self).ttl,
            final(self).state == next_state(old(self).state, event),
            action == next_action(old(self).state, old(self).ttl as int, event),
    {
        match self.state {
            EvictorState::Cancelled => EvictorAction::Exit,
            EvictorState::Idle => match event {
                EvictorEvent::CancelRequested => {
                    self.state = EvictorState::Cancelled;
                    EvictorAction::Exit
                },
                EvictorEvent::Started => {
                    self.state = EvictorState::Running;
                    EvictorAction::Wait { seconds: POLL_INTERVAL_SECS }
                },
                _ => EvictorAction::Ignore,
            },
            EvictorState::Running => match event {
                EvictorEvent::CancelRequested => {
                    self.state = EvictorState::Cancelled;
                    EvictorAction::Exit
                },
                EvictorEvent::Started => EvictorAction::Ignore,
                EvictorEvent::Elapsed { now } => match cutoff(now, self.ttl) {
                    Some(at) => EvictorAction::Purge { cutoff: at, max_batch: EVICTION_BATCH },
                    None => EvictorAction::Wait { seconds: POLL_INTERVAL_SECS },
                },
                EvictorEvent::Purged { .. } => EvictorAction::Wait { seconds: POLL_INTERVAL_SECS },
                EvictorEvent::PurgeFailed => EvictorAction::Wait { seconds: POLL_INTERVAL_SECS },
            },
        }
    }
}

/// Does on `store` what one tick of a worker with this time-to-live asks
/// for at `now`: removes the first `EVICTION_BATCH` records that have
/// outlived it, or all of them if there are fewer, and says how many.
pub fn evict_once(store: &mut CoordinateStore, now: i64, ttl: u64) -> (deleted: usize)
    requires
        old(store).wf(),
    ensures
        final(store).wf(),
        final(store).capacity() == old(store).capacity(),
        final(store)@ == purge(
            old(store)@,
            cutoff_at(now as int, ttl as int),
            EVICTION_BATCH as nat,
        ),
        deleted == old(store)@.len() - final(store)@.len(),
        deleted <= EVICTION_BATCH,
        expired_count(final(store)@, cutoff_at(now as int, ttl as int)) == expired_count(
            old(store)@,
            cutoff_at(now as int, ttl as int),
        ) - deleted,
{
    match cutoff(now, ttl) {
        Some(at) => store.delete_expired(at, EVICTION_BATCH),
        None => {
            proof {
                let early = cutoff_at(now as int, ttl as int);
                lemma_nothing_before_time(store@, early);
                lemma_nothing_expired(store@, early, EVICTION_BATCH as nat);
            }
            0
        },
    }
}

/// A cancelled worker stays cancelled and only ever leaves.
pub proof fn lemma_cancelled_is_final(ttl: int, event: EvictorEvent)
    ensures
        next_state(EvictorState::Cancelled, event) == EvictorState::Cancelled,
        next_action(EvictorState::Cancelled, ttl, event) == EvictorAction::Exit,
{
}

/// A cancellation is obeyed in every state, and nothing else ends the
/// worker: neither the passing of time nor a failed purge.
pub proof fn lemma_only_cancellation_ends(state: EvictorState, ttl: int, event: EvictorEvent)
    ensures
        event == EvictorEvent::CancelRequested ==> next_state(state, event)
            == EvictorState::Cancelled && next_action(state, ttl, event) == EvictorAction::Exit,
        next_state(state, event) == EvictorState::Cancelled ==> state == EvictorState::Cancelled
            || event == EvictorEvent::CancelRequested,
        next_action(state, ttl, event) == EvictorAction::Exit ==> next_state(state, event)
            == EvictorState::Cancelled,
{
}

/// Every purge that a worker asks for is bounded by the batch size and
/// aimed at exactly the records that have outlived the time-to-live.
pub proof fn lemma_purge_is_bounded(state: EvictorState, ttl: int, event: EvictorEvent)
    ensures
        next_action(state, ttl, event) matches EvictorAction::Purge { cutoff, max_batch } ==> {
            &&& max_batch == EVICTION_BATCH
            &&& state == EvictorState::Running
            &&& event matches EvictorEvent::Elapsed { now }
            &&& cutoff == now - ttl
        },
{
}

/// Where the cutoff lies below every instant that a record can carry, no
/// record is expired, so a tick that asks for no purge leaves nothing
/// undone.
pub proof fn lemma_nothing_before_time(table: Seq<WeatherRecord>, cutoff: int)
    requires
        cutoff < i64::MIN,
    ensures
        expired_count(table, cutoff) == 0,
    decreases table.len(),
{
    if table.len() == 0 {
        reveal(Seq::filter);
    } else {
        lemma_filter_front(table, stale(cutoff));
        lemma_nothing_before_time(table.drop_first(), cutoff);
    }
}

} // verus!
