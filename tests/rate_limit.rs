use agent_core::rate_limit::RateLimiter;

#[test]
fn admits_capacity_then_refuses_within_window() {
    let mut limiter = RateLimiter::new(3);
    assert!(limiter.allow_at(0));
    assert!(limiter.allow_at(10));
    assert!(limiter.allow_at(59_999));
    assert!(!limiter.allow_at(59_999));
}

#[test]
fn window_rollover_refills() {
    let mut limiter = RateLimiter::new(2);
    assert!(limiter.allow_at(0));
    assert!(limiter.allow_at(1));
    assert!(!limiter.allow_at(2));
    assert!(limiter.allow_at(60_000));
    assert!(limiter.allow_at(60_001));
    assert!(!limiter.allow_at(60_002));
    assert!(!limiter.allow_at(119_999));
    assert!(limiter.allow_at(120_000));
}

#[test]
fn zero_capacity_never_admits() {
    let mut limiter = RateLimiter::new(0);
    assert!(!limiter.allow_at(0));
    assert!(!limiter.allow_at(1_000_000));
}

#[test]
fn earlier_clock_reading_does_not_refill() {
    let mut limiter = RateLimiter::new(1);
    assert!(limiter.allow_at(100_000));
    assert!(!limiter.allow_at(5));
}

#[test]
fn live_clock_admits_capacity() {
    let mut limiter = RateLimiter::new(2);
    assert!(limiter.allow());
    assert!(limiter.allow());
    assert!(!limiter.allow());
}
