use psh::cache::{Decision, SharedCache, TelemetryCache};
use std::cell::Cell;

#[test]
fn first_call_collects() {
    let mut cache: TelemetryCache<u64> = TelemetryCache::new();
    assert!(cache.is_stale(0, u64::MAX));
    assert_eq!(cache.last_good(), None);
    assert_eq!(cache.captured_at(), None);
    let got = cache.get_or_refresh(100, 10, || Ok::<u64, String>(7));
    assert_eq!(got, Ok(&7));
    assert_eq!(cache.last_good(), Some(&7));
    assert_eq!(cache.captured_at(), Some(100));
}

#[test]
fn fresh_snapshot_is_served_without_the_collector() {
    let calls = Cell::new(0u32);
    let mut cache: TelemetryCache<u64> = TelemetryCache::new();
    let collect = || {
        calls.set(calls.get() + 1);
        Ok::<u64, String>(u64::from(calls.get()))
    };
    assert_eq!(cache.get_or_refresh(100, 10, collect), Ok(&1));
    assert_eq!(cache.get_or_refresh(105, 10, collect), Ok(&1));
    assert_eq!(cache.get_or_refresh(110, 10, collect), Ok(&1));
    assert_eq!(calls.get(), 1);
    assert_eq!(cache.get_or_refresh(111, 10, collect), Ok(&2));
    assert_eq!(calls.get(), 2);
    assert_eq!(cache.captured_at(), Some(111));
}

#[test]
fn one_refresh_serves_every_caller_whose_window_reaches_back() {
    let calls = Cell::new(0u32);
    let mut cache: TelemetryCache<u32> = TelemetryCache::new();
    let collect = || {
        calls.set(calls.get() + 1);
        Ok::<u32, String>(calls.get())
    };
    let windows: [(u64, u64); 5] = [(1000, 50), (1010, 10), (1020, 30), (1040, 40), (1050, 1000)];
    for (now, max_age) in windows {
        assert_eq!(cache.get_or_refresh(now, max_age, collect), Ok(&1));
    }
    assert_eq!(calls.get(), 1);
}

#[test]
fn age_is_measured_against_the_caller_own_limit() {
    let mut cache: TelemetryCache<&str> = TelemetryCache::new();
    cache.store("old", 10);
    assert!(!cache.is_stale(10, 0));
    assert!(!cache.is_stale(15, 5));
    assert!(cache.is_stale(16, 5));
    assert!(!cache.is_stale(16, 6));
    assert!(!cache.is_stale(3, 0));
    assert!(!cache.is_stale(u64::MAX, u64::MAX));
    assert!(cache.is_stale(u64::MAX, 0));
}

#[test]
fn failure_is_handed_on_and_the_snapshot_stays() {
    let mut cache: TelemetryCache<u64> = TelemetryCache::new();
    assert_eq!(cache.get_or_refresh(0, 5, || Err::<u64, &str>("unreadable")), Err("unreadable"));
    assert_eq!(cache.last_good(), None);
    assert_eq!(cache.get_or_refresh(1, 5, || Ok::<u64, &str>(3)), Ok(&3));
    assert_eq!(cache.get_or_refresh(100, 5, || Err::<u64, &str>("unreadable")), Err("unreadable"));
    assert_eq!(cache.last_good(), Some(&3));
    assert_eq!(cache.captured_at(), Some(1));
    assert_eq!(cache.get_or_refresh(100, 1000, || Err::<u64, &str>("not asked")), Ok(&3));
}

#[test]
fn stale_reading_is_served_when_the_collector_fails() {
    let mut cache: TelemetryCache<u64> = TelemetryCache::new();
    assert_eq!(cache.get_or_stale(0, 5, || Err::<u64, &str>("unreadable")), Err("unreadable"));
    assert_eq!(cache.get_or_stale(1, 5, || Ok::<u64, &str>(3)), Ok(&3));
    assert_eq!(cache.get_or_stale(100, 5, || Err::<u64, &str>("unreadable")), Ok(&3));
    assert_eq!(cache.captured_at(), Some(1));
    assert_eq!(cache.get_or_stale(200, 5, || Ok::<u64, &str>(4)), Ok(&4));
    assert_eq!(cache.captured_at(), Some(200));
    assert_eq!(cache.get_or_stale(201, 5, || Ok::<u64, &str>(5)), Ok(&4));
}

#[test]
fn store_puts_a_new_snapshot_in_place() {
    let mut cache: TelemetryCache<String> = TelemetryCache::new();
    cache.store("a".to_string(), 5);
    cache.store("b".to_string(), 9);
    assert_eq!(cache.last_good().map(String::as_str), Some("b"));
    assert_eq!(cache.captured_at(), Some(9));
}

#[test]
fn one_caller_collects_while_the_others_wait() {
    let mut cache: SharedCache<u32> = SharedCache::new();
    assert!(!cache.is_refreshing());
    assert_eq!(cache.last_good(), None);

    assert_eq!(cache.begin(100, 10), Decision::Collect);
    assert!(cache.is_refreshing());
    assert_eq!(cache.begin(101, 10), Decision::Wait);
    assert_eq!(cache.begin(102, 0), Decision::Wait);
    assert_eq!(cache.begin(103, u64::MAX), Decision::Wait);

    assert_eq!(cache.end(104, Ok::<u32, &str>(7)), Ok(&7));
    assert!(!cache.is_refreshing());
    assert_eq!(cache.begin(105, 10), Decision::Serve);
    assert_eq!(cache.begin(106, 2), Decision::Serve);
    assert_eq!(cache.begin(114, 10), Decision::Serve);
    assert_eq!(cache.last_good(), Some(&7));
    assert!(!cache.is_refreshing());

    assert_eq!(cache.begin(115, 10), Decision::Collect);
    assert_eq!(cache.begin(115, 10), Decision::Wait);
    assert_eq!(cache.begin(115, 11), Decision::Serve);
}

#[test]
fn failed_collection_leaves_the_snapshot_and_the_next_caller_collects() {
    let mut cache: SharedCache<u32> = SharedCache::new();
    assert_eq!(cache.begin(0, 5), Decision::Collect);
    assert_eq!(cache.end(1, Err::<u32, &str>("unreadable")), Err("unreadable"));
    assert_eq!(cache.last_good(), None);
    assert_eq!(cache.begin(2, 5), Decision::Collect);
    assert_eq!(cache.end(3, Ok::<u32, &str>(1)), Ok(&1));
    assert_eq!(cache.begin(100, 5), Decision::Collect);
    assert_eq!(cache.begin(100, 5), Decision::Wait);
    assert_eq!(cache.end(101, Err::<u32, &str>("unreadable")), Err("unreadable"));
    assert_eq!(cache.last_good(), Some(&1));
    assert_eq!(cache.begin(102, 1000), Decision::Serve);
    assert_eq!(cache.begin(102, 5), Decision::Collect);
}

#[test]
fn callers_in_any_order_start_one_collection_per_cycle() {
    let windows: [u64; 7] = [0, 5, 1, 9, 3, 0, 7];
    let mut cache: SharedCache<u64> = SharedCache::new();
    let mut collections: u32 = 0;
    let mut now: u64 = 1_000;
    for round in 0..3u64 {
        let mut under_way: u32 = 0;
        for max_age in windows {
            now += 1;
            match cache.begin(now, max_age) {
                Decision::Collect => {
                    collections += 1;
                    under_way += 1;
                }
                Decision::Wait => assert_eq!(under_way, 1),
                Decision::Serve => {}
            }
            assert!(under_way <= 1);
        }
        assert_eq!(under_way, 1);
        now += 1;
        assert_eq!(cache.end(now, Ok::<u64, ()>(round)), Ok(&round));
        now += 100;
    }
    assert_eq!(collections, 3);
}

#[test]
fn shared_cache_serves_the_old_reading_when_the_collector_fails() {
    let mut cache: SharedCache<u32> = SharedCache::new();
    assert_eq!(cache.begin(0, 5), Decision::Collect);
    assert_eq!(cache.end_or_stale(1, Err::<u32, &str>("unreadable")), Err("unreadable"));
    assert!(!cache.is_refreshing());
    assert_eq!(cache.begin(2, 5), Decision::Collect);
    assert_eq!(cache.end_or_stale(3, Ok::<u32, &str>(8)), Ok(&8));
    assert_eq!(cache.begin(50, 5), Decision::Collect);
    assert_eq!(cache.end_or_stale(51, Err::<u32, &str>("unreadable")), Ok(&8));
    assert!(!cache.is_refreshing());
    assert_eq!(cache.begin(52, 5), Decision::Collect);
}

#[test]
fn whole_calls_leave_no_collection_under_way() {
    let mut cache: SharedCache<u32> = SharedCache::new();
    let readings: [Result<u32, &str>; 6] =
        [Err("down"), Ok(1), Err("down"), Ok(2), Err("down"), Err("down")];
    let mut now: u64 = 0;
    for reading in readings {
        now += 10;
        assert_eq!(cache.begin(now, 5), Decision::Collect);
        assert!(cache.is_refreshing());
        let _ = cache.end_or_stale(now + 1, reading);
        assert!(!cache.is_refreshing());
        assert_ne!(cache.begin(now + 1, 5), Decision::Wait);
        if cache.is_refreshing() {
            let _ = cache.end(now + 1, Err::<u32, &str>("down"));
        }
    }
    assert_eq!(cache.last_good(), Some(&2));
}

#[test]
fn snapshot_is_the_last_reading_handed_in() {
    let mut cache: SharedCache<Vec<u64>> = SharedCache::new();
    assert_eq!(cache.last_good(), None);
    assert_eq!(cache.begin(0, 0), Decision::Collect);
    assert_eq!(cache.end(3, Ok::<Vec<u64>, String>(vec![1, 2, 3])), Ok(&vec![1, 2, 3]));
    assert_eq!(cache.begin(3, 0), Decision::Serve);
    assert_eq!(cache.begin(4, 0), Decision::Collect);
    assert_eq!(cache.end(5, Err::<Vec<u64>, String>("down".to_string())), Err("down".to_string()));
    assert_eq!(cache.last_good(), Some(&vec![1, 2, 3]));
    assert_eq!(cache.begin(6, 0), Decision::Collect);
    assert_eq!(cache.end(7, Ok::<Vec<u64>, String>(vec![4, 5])), Ok(&vec![4, 5]));
    assert_eq!(cache.last_good(), Some(&vec![4, 5]));
    assert_eq!(cache.begin(7, 0), Decision::Serve);
    assert_eq!(cache.begin(8, 0), Decision::Collect);
}

#[test]
fn reader_of_old_readings_is_answered_once_a_reading_was_taken() {
    let mut cache: SharedCache<u32> = SharedCache::new();
    assert_eq!(cache.begin(0, 1), Decision::Collect);
    assert_eq!(cache.end_or_stale(0, Err::<u32, &str>("down")), Err("down"));
    assert_eq!(cache.begin(1, 1), Decision::Collect);
    assert_eq!(cache.end_or_stale(1, Ok::<u32, &str>(9)), Ok(&9));
    let mut now: u64 = 1;
    while now < 50 {
        now += 7;
        assert_eq!(cache.begin(now, 1), Decision::Collect);
        assert_eq!(cache.end_or_stale(now, Err::<u32, &str>("down")), Ok(&9));
    }
}
