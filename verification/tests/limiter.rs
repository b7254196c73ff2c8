use mini_fintickstreams::error::AppError;
use mini_fintickstreams::ingest::ws::limiter_registry::{LimiterName, WsLimiterRegistry};
use mini_fintickstreams::ingest::ws::subscribe_limiter::{Acquire, TokenBucket, NANOS};

/// How many of the attempts at the given instants are granted.
fn granted(bucket: &mut TokenBucket, times: &[u64]) -> u64 {
    let mut n = 0;
    for t in times {
        if bucket.try_acquire(*t) == Acquire::Granted {
            n += 1;
        }
    }
    n
}

#[test]
fn burst_allows_exactly_that_many_at_once() {
    for burst in [1u32, 2, 5, 50] {
        let mut bucket = TokenBucket::new(3, burst, 1_000);
        for _ in 0..burst {
            assert_eq!(bucket.try_acquire(1_000), Acquire::Granted);
        }
        assert!(matches!(bucket.try_acquire(1_000), Acquire::Wait(_)));
        assert!(matches!(bucket.try_acquire(1_000), Acquire::Wait(_)));
    }
}

#[test]
fn empty_bucket_says_how_long_to_wait() {
    let mut bucket = TokenBucket::new(4, 1, 0);
    assert_eq!(bucket.try_acquire(0), Acquire::Granted);
    // Four tokens a second: one token takes a quarter of a second.
    assert_eq!(bucket.try_acquire(0), Acquire::Wait(250_000_000));
    assert_eq!(bucket.try_acquire(100_000_000), Acquire::Wait(150_000_000));
    assert_eq!(bucket.try_acquire(249_999_999), Acquire::Wait(1));
    assert_eq!(bucket.try_acquire(250_000_000), Acquire::Granted);
    assert_eq!(bucket.try_acquire(250_000_000), Acquire::Wait(250_000_000));

    // A rate that does not divide the second: the wait is rounded up.
    let mut bucket = TokenBucket::new(3, 1, 0);
    assert_eq!(bucket.try_acquire(0), Acquire::Granted);
    assert_eq!(bucket.try_acquire(0), Acquire::Wait(333_333_334));
    assert_eq!(bucket.try_acquire(333_333_333), Acquire::Wait(1));
    assert_eq!(bucket.try_acquire(333_333_334), Acquire::Granted);
}

#[test]
fn bucket_never_holds_more_than_its_burst() {
    let mut bucket = TokenBucket::new(10, 3, 0);
    assert_eq!(granted(&mut bucket, &[0, 0, 0, 0]), 3);
    // After a long pause the bucket is full again, and no fuller.
    let later = 3_600 * NANOS;
    assert_eq!(granted(&mut bucket, &[later, later, later, later, later]), 3);
}

#[test]
fn attempts_in_a_window_are_bounded() {
    // rate 5/s, burst 2: in a window of t seconds at most 2 + 5 t are granted.
    for (window_ns, step_ns) in [
        (NANOS, 1_000_000u64),
        (3 * NANOS, 10_000_000),
        (NANOS / 2, 100_000),
        (10 * NANOS, 100_000_000),
    ] {
        let mut bucket = TokenBucket::new(5, 2, 0);
        let start = 7 * NANOS;
        let mut times = Vec::new();
        let mut t = start;
        while t <= start + window_ns {
            times.push(t);
            t += step_ns;
        }
        let n = granted(&mut bucket, &times);
        let bound = 2 * NANOS as u128 + 5 * window_ns as u128;
        assert!(n as u128 * NANOS as u128 <= bound, "window {} step {}", window_ns, step_ns);
        // The bound is reached but for the last, partly filled token.
        assert!((n as u128 + 1) * NANOS as u128 > bound - 5 * step_ns as u128);
    }
}

#[test]
fn window_bound_holds_for_a_drained_bucket() {
    let mut bucket = TokenBucket::new(2, 4, 0);
    assert_eq!(granted(&mut bucket, &[0, 0, 0, 0, 0]), 4);
    // One second later two tokens are back.
    let times: Vec<u64> = (0..100).map(|i| NANOS + i).collect();
    assert_eq!(granted(&mut bucket, &times), 2);
}

#[test]
fn clock_that_reads_earlier_adds_nothing() {
    let mut bucket = TokenBucket::new(1, 1, 5 * NANOS);
    assert_eq!(bucket.try_acquire(5 * NANOS), Acquire::Granted);
    assert_eq!(bucket.try_acquire(0), Acquire::Wait(NANOS));
    assert_eq!(bucket.last, 5 * NANOS);
    assert_eq!(bucket.try_acquire(6 * NANOS), Acquire::Granted);
}

#[test]
fn bucket_without_rate_or_burst_never_refills() {
    let mut bucket = TokenBucket::new(0, 1, 0);
    assert_eq!(bucket.try_acquire(0), Acquire::Granted);
    assert_eq!(bucket.try_acquire(u64::MAX), Acquire::Wait(u64::MAX));
    let mut bucket = TokenBucket::new(5, 0, 0);
    assert_eq!(bucket.try_acquire(u64::MAX), Acquire::Wait(u64::MAX));
    // The largest rate and the longest pause do not overflow.
    let mut bucket = TokenBucket::new(u32::MAX, u32::MAX, 0);
    assert_eq!(bucket.try_acquire(u64::MAX), Acquire::Granted);
    assert_eq!(bucket.level, (u32::MAX as u64 - 1) * NANOS);
}

#[test]
fn registry_keeps_two_limiters_per_exchange() {
    let mut registry = WsLimiterRegistry::new();
    registry.register("binance_linear".to_string(), 5, 1, 1, 2, 0);
    registry.register("hyperliquid_perp".to_string(), 1, 1, 1, 1, 0);

    assert_eq!(registry.acquire_subscribe("binance_linear", 0), Ok(Acquire::Granted));
    assert_eq!(registry.acquire_subscribe("binance_linear", 0), Ok(Acquire::Wait(200_000_000)));
    // The reconnect limiter is independent of the subscribe limiter.
    assert_eq!(registry.acquire_reconnect("binance_linear", 0), Ok(Acquire::Granted));
    assert_eq!(registry.acquire_reconnect("binance_linear", 0), Ok(Acquire::Granted));
    assert_eq!(registry.acquire_reconnect("binance_linear", 0), Ok(Acquire::Wait(NANOS)));
    // And so are the exchanges.
    assert_eq!(registry.acquire_subscribe("hyperliquid_perp", 0), Ok(Acquire::Granted));
    assert_eq!(
        registry.try_acquire("hyperliquid_perp", LimiterName::Reconnect, 0),
        Ok(Acquire::Granted)
    );
    assert_eq!(
        registry.try_acquire("hyperliquid_perp", LimiterName::Reconnect, NANOS - 1),
        Ok(Acquire::Wait(1))
    );

    let before = registry.clone();
    assert_eq!(
        registry.acquire_subscribe("kraken", 0),
        Err(AppError::InvalidConfig("no limiters for exchange: kraken".to_string()))
    );
    assert_eq!(registry, before);
}
