use echocache::cache::{Cached, Lookup};
use echocache::flight::{Claim, Request};

const MS: u64 = 1_000_000;

/// One reader, as a runtime drives it: look up, launch where told to.
fn read(c: &mut Cached<u32, u64>, now: u64, handle: u64) -> Lookup {
    let step = c.lookup(now);
    if step == Lookup::Launch {
        c.launch(now, handle);
    }
    step
}

#[test]
fn ten_concurrent_readers_fetch_once() {
    let mut c: Cached<u32, u64> = Cached::new(Some(50 * MS));
    let mut launches = 0;
    for i in 0..10u64 {
        if read(&mut c, 0, i) == Lookup::Launch {
            launches += 1;
        }
    }
    assert_eq!(launches, 1);
    assert_eq!(c.inflight(), Some(&0));
    c.complete(42, 1 * MS);
    for t in [1 * MS, 20 * MS, 51 * MS] {
        assert_eq!(c.lookup(t), Lookup::Hit);
        assert_eq!(c.peek(t), Some(&42));
    }
    assert_eq!(read(&mut c, 61 * MS, 99), Lookup::Launch);
    assert_eq!(read(&mut c, 62 * MS, 100), Lookup::Join);
    assert_eq!(c.inflight(), Some(&99));
    c.complete(43, 63 * MS);
    assert_eq!(c.peek(63 * MS), Some(&43));
}

#[test]
fn value_is_valid_exactly_at_expiry() {
    let c: Cached<u32, u64> = Cached::new_with_value(7, Some(10), 100);
    assert_eq!(c.lookup(110), Lookup::Hit);
    assert_eq!(c.lookup(111), Lookup::Launch);
    assert_eq!(c.peek(111), None);
}

#[test]
fn value_without_lifetime_never_expires() {
    let c: Cached<u32, u64> = Cached::new_with_value(7, None, 100);
    assert_eq!(c.lookup(u64::MAX), Lookup::Hit);
    assert_eq!(c.expiration(), None);
}

#[test]
fn expiry_is_held_at_the_clock_limit() {
    let mut c: Cached<u32, u64> = Cached::new(Some(10));
    c.complete(1, u64::MAX - 5);
    assert_eq!(c.lookup(u64::MAX), Lookup::Hit);
}

#[test]
fn fast_path_leaves_cache_alone() {
    let mut c: Cached<u32, u64> = Cached::new_with_value(5, Some(100), 0);
    assert_eq!(read(&mut c, 50, 1), Lookup::Hit);
    assert_eq!(c.inflight(), None);
    assert_eq!(c.peek(50), Some(&5));
}

#[test]
fn clear_then_refetch() {
    let mut c: Cached<u32, u64> = Cached::new_with_value(5, None, 0);
    c.clear();
    assert_eq!(c.lookup(0), Lookup::Launch);
}

#[test]
fn fetch_landing_after_clear_populates_cache() {
    let mut c: Cached<u32, u64> = Cached::new(Some(100));
    assert_eq!(read(&mut c, 0, 1), Lookup::Launch);
    c.clear();
    assert_eq!(c.lookup(1), Lookup::Launch);
    c.complete(9, 2);
    assert_eq!(c.lookup(3), Lookup::Hit);
    assert_eq!(c.peek(3), Some(&9));
}

#[test]
fn map_cached_without_fetch() {
    let mut c: Cached<u32, u64> = Cached::new(Some(10));
    assert_eq!(c.map_cached(0, |v| *v + 1), None);
    c.launch(0, 3);
    assert_eq!(c.map_cached(0, |v| *v + 1), None);
    assert_eq!(c.inflight(), Some(&3));
    c.complete(4, 0);
    assert_eq!(c.map_cached(10, |v| *v + 1), Some(5));
    assert_eq!(c.map_cached(11, |v| *v + 1), None);
}

#[test]
fn cached_error_is_cleared() {
    let mut c: Cached<Result<u32, String>, u64> = Cached::new(Some(300));
    c.complete(Err("boom".to_string()), 0);
    assert_eq!(c.map_cached(1, |v| v.is_err()), Some(true));
    c.clear_if_error(1);
    assert_eq!(c.lookup(1), Lookup::Launch);
    c.complete(Ok(3), 2);
    c.clear_if_error(3);
    assert_eq!(c.lookup(3), Lookup::Hit);
}

#[test]
fn expired_error_is_left_in_place() {
    let mut c: Cached<Result<u32, String>, u64> = Cached::new(Some(1));
    c.complete(Err("boom".to_string()), 0);
    c.clear_if_error(5);
    assert_eq!(c.lookup(5), Lookup::Launch);
    assert_eq!(c.peek(0).map(|v| v.is_err()), Some(true));
}

#[test]
fn coalescer_joins_live_flight() {
    let mut r: Request<u32> = Request::new();
    assert_eq!(r.claim(false, 1), Claim::Launch);
    assert_eq!(r.claim(true, 2), Claim::Join);
    assert_eq!(r.claim(true, 3), Claim::Join);
    assert_eq!(r.inflight(), Some(&1));
    r.settle();
    assert_eq!(r.inflight(), None);
    assert_eq!(r.claim(true, 4), Claim::Launch);
    assert_eq!(r.inflight(), Some(&4));
}

#[test]
fn coalescer_replaces_dead_flight() {
    let mut r: Request<u32> = Request::new();
    r.claim(true, 1);
    assert_eq!(r.claim(false, 2), Claim::Launch);
    assert_eq!(r.inflight(), Some(&2));
}

#[test]
fn joiner_is_served_when_launcher_is_gone() {
    // The launching reader records its fetch and then goes away; the fetch
    // still lands, and a reader that joined it is served its value.
    let mut c: Cached<u32, u64> = Cached::new(None);
    assert_eq!(read(&mut c, 0, 1), Lookup::Launch);
    assert_eq!(read(&mut c, 1, 2), Lookup::Join);
    assert_eq!(c.inflight(), Some(&1));
    c.complete(11, 5);
    assert_eq!(c.peek(6), Some(&11));
    let mut r: Request<&str> = Request::new();
    assert_eq!(r.claim(false, "launcher"), Claim::Launch);
    assert_eq!(r.claim(true, "joiner"), Claim::Join);
    assert_eq!(r.inflight(), Some(&"launcher"));
}
