use weather_cache::evictor::{
    cutoff, evict_once, Evictor, EvictorAction, EvictorEvent, EvictorState, EVICTION_BATCH,
    POLL_INTERVAL_SECS,
};
use weather_cache::record::WeatherRecord;
use weather_cache::store::CoordinateStore;

fn stamped(created_at: i64) -> WeatherRecord {
    WeatherRecord::new(40_000_000, -3_000_000, 15_200, created_at)
}

fn running(ttl: u64) -> Evictor {
    let mut worker = Evictor::new(ttl);
    assert_eq!(worker.step(EvictorEvent::Started), EvictorAction::Wait { seconds: 1 });
    worker
}

#[test]
fn evictor_constants() {
    assert_eq!(POLL_INTERVAL_SECS, 1);
    assert_eq!(EVICTION_BATCH, 10);
}

#[test]
fn cutoff_is_now_minus_ttl() {
    assert_eq!(cutoff(1_000, 60), Some(940));
    assert_eq!(cutoff(1_700_000_000, 0), Some(1_700_000_000));
    assert_eq!(cutoff(0, 60), Some(-60));
    assert_eq!(cutoff(i64::MAX, u64::MAX), Some(i64::MIN));
    assert_eq!(cutoff(i64::MIN, 0), Some(i64::MIN));
}

#[test]
fn cutoff_before_all_time_is_none() {
    assert_eq!(cutoff(i64::MIN, 1), None);
    assert_eq!(cutoff(0, u64::MAX), None);
    assert_eq!(cutoff(i64::MAX - 1, u64::MAX), None);
}

#[test]
fn worker_starts_idle_and_runs_when_started() {
    let mut worker = Evictor::new(60);
    assert_eq!(worker, Evictor { state: EvictorState::Idle, ttl: 60 });
    assert!(!worker.is_cancelled());
    let action = worker.step(EvictorEvent::Started);
    assert_eq!(action, EvictorAction::Wait { seconds: 1 });
    assert_eq!(worker.state, EvictorState::Running);
}

#[test]
fn tick_asks_for_one_bounded_purge() {
    let mut worker = running(60);
    let action = worker.step(EvictorEvent::Elapsed { now: 1_000 });
    assert_eq!(action, EvictorAction::Purge { cutoff: 940, max_batch: 10 });
    assert_eq!(worker.state, EvictorState::Running);
    assert_eq!(worker.ttl, 60);
}

#[test]
fn tick_with_cutoff_before_all_time_only_waits() {
    let mut worker = running(u64::MAX);
    let action = worker.step(EvictorEvent::Elapsed { now: 1_000 });
    assert_eq!(action, EvictorAction::Wait { seconds: 1 });
    assert_eq!(worker.state, EvictorState::Running);
}

#[test]
fn purge_outcome_leads_back_to_waiting() {
    let mut worker = running(60);
    assert_eq!(
        worker.step(EvictorEvent::Purged { deleted: 7 }),
        EvictorAction::Wait { seconds: 1 }
    );
    assert_eq!(worker.state, EvictorState::Running);
}

#[test]
fn failed_purge_is_not_fatal() {
    let mut worker = running(60);
    assert_eq!(worker.step(EvictorEvent::PurgeFailed), EvictorAction::Wait { seconds: 1 });
    assert_eq!(worker.state, EvictorState::Running);
    assert_eq!(
        worker.step(EvictorEvent::Elapsed { now: 100 }),
        EvictorAction::Purge { cutoff: 40, max_batch: 10 }
    );
}

#[test]
fn cancellation_ends_a_running_worker() {
    let mut worker = running(60);
    assert_eq!(worker.step(EvictorEvent::CancelRequested), EvictorAction::Exit);
    assert_eq!(worker.state, EvictorState::Cancelled);
    assert!(worker.is_cancelled());
}

#[test]
fn cancellation_ends_an_idle_worker() {
    let mut worker = Evictor::new(60);
    assert_eq!(worker.step(EvictorEvent::CancelRequested), EvictorAction::Exit);
    assert_eq!(worker.state, EvictorState::Cancelled);
}

#[test]
fn cancelled_worker_only_leaves() {
    let events = [
        EvictorEvent::Started,
        EvictorEvent::Elapsed { now: 1_000 },
        EvictorEvent::Purged { deleted: 3 },
        EvictorEvent::PurgeFailed,
        EvictorEvent::CancelRequested,
    ];
    for event in events {
        let mut worker = running(60);
        worker.step(EvictorEvent::CancelRequested);
        assert_eq!(worker.step(event), EvictorAction::Exit);
        assert_eq!(worker.state, EvictorState::Cancelled);
    }
}

#[test]
fn idle_worker_ignores_what_is_not_for_it() {
    let events = [
        EvictorEvent::Elapsed { now: 1_000 },
        EvictorEvent::Purged { deleted: 3 },
        EvictorEvent::PurgeFailed,
    ];
    for event in events {
        let mut worker = Evictor::new(60);
        assert_eq!(worker.step(event), EvictorAction::Ignore);
        assert_eq!(worker.state, EvictorState::Idle);
    }
    let mut worker = running(60);
    assert_eq!(worker.step(EvictorEvent::Started), EvictorAction::Ignore);
    assert_eq!(worker.state, EvictorState::Running);
}

#[test]
fn evict_once_applies_the_ttl_at_now() {
    let t: i64 = 1_700_000_000;
    let mut store = CoordinateStore::new(16);
    for stamp in [t - 100, t - 50, t - 1] {
        assert!(store.insert(stamped(stamp)).is_ok());
    }
    assert_eq!(evict_once(&mut store, t, 60), 1);
    assert_eq!(store.len(), 2);
    assert_eq!(store.get(0), Some(stamped(t - 50)));
    assert_eq!(store.get(1), Some(stamped(t - 1)));
    assert_eq!(evict_once(&mut store, t, 60), 0);
}

#[test]
fn evict_once_drains_a_backlog_in_three_ticks() {
    let mut store = CoordinateStore::new(64);
    for age in 0..25 {
        assert!(store.insert(stamped(100 + age)).is_ok());
    }
    assert!(store.insert(stamped(5_000)).is_ok());
    assert_eq!(evict_once(&mut store, 1_060, 60), 10);
    assert_eq!(evict_once(&mut store, 1_060, 60), 10);
    assert_eq!(evict_once(&mut store, 1_060, 60), 5);
    assert_eq!(store.len(), 1);
    assert_eq!(store.get(0), Some(stamped(5_000)));
}

#[test]
fn evict_once_before_all_time_removes_nothing() {
    let mut store = CoordinateStore::new(4);
    assert!(store.insert(stamped(i64::MIN)).is_ok());
    assert_eq!(evict_once(&mut store, 0, u64::MAX), 0);
    assert_eq!(store.len(), 1);
    assert_eq!(evict_once(&mut store, i64::MIN, 0), 1);
    assert!(store.is_empty());
}

#[test]
fn worker_drives_the_store_until_cancelled() {
    let mut store = CoordinateStore::new(64);
    for age in 0..12 {
        assert!(store.insert(stamped(age)).is_ok());
    }
    let mut worker = Evictor::new(60);
    let mut action = worker.step(EvictorEvent::Started);
    let mut now = 1_000;
    let mut removed = Vec::new();
    for tick in 0..4 {
        assert_eq!(action, EvictorAction::Wait { seconds: 1 });
        now += 1;
        let event = if tick == 3 {
            EvictorEvent::CancelRequested
        } else {
            EvictorEvent::Elapsed { now }
        };
        action = worker.step(event);
        if let EvictorAction::Purge { cutoff, max_batch } = action {
            let deleted = store.delete_expired(cutoff, max_batch);
            removed.push(deleted);
            action = worker.step(EvictorEvent::Purged { deleted });
        }
    }
    assert_eq!(action, EvictorAction::Exit);
    assert_eq!(removed, vec![10, 2, 0]);
    assert!(worker.is_cancelled());
}
