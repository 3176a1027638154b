use midoku::limiter::RateLimiter;

#[test]
fn test_rate_limiter_default() {
    let rate_limiter = RateLimiter::default();

    assert_eq!(rate_limiter.burst(), 1);
    assert_eq!(rate_limiter.period_ms(), 1);
}

#[test]
fn test_rate_limiter_get_burst() {
    let rate_limiter = RateLimiter::default();

    assert_eq!(rate_limiter.burst(), 1);
}

#[test]
fn test_rate_limiter_get_period_ms() {
    let rate_limiter = RateLimiter::default();

    assert_eq!(rate_limiter.period_ms(), 1);
}

#[test]
fn test_rate_limiter_set_burst() {
    let mut rate_limiter = RateLimiter::default();

    rate_limiter.set_burst(3).unwrap();
    assert_eq!(rate_limiter.burst(), 3);
    assert_eq!(rate_limiter.period_ms(), 1);
    assert!(rate_limiter.ready());
}

#[test]
fn test_rate_limiter_set_period_ms() {
    let mut rate_limiter = RateLimiter::default();

    rate_limiter.set_period_ms(1000).unwrap();
    assert_eq!(rate_limiter.burst(), 1);
    assert_eq!(rate_limiter.period_ms(), 1000);
    assert!(rate_limiter.ready());
}

#[test]
fn test_rate_limiter_set_burst_zero() {
    let mut rate_limiter = RateLimiter::default();

    assert!(rate_limiter.set_burst(0).is_err());
}

#[test]
fn test_rate_limiter_set_period_ms_zero() {
    let mut rate_limiter = RateLimiter::default();

    assert!(rate_limiter.set_period_ms(0).is_err());
}

#[test]
fn test_rate_limiter_set_limiter() {
    let mut rate_limiter = RateLimiter::default();

    rate_limiter.set_limiter(5, 2000).unwrap();

    // burst and period_ms should not change
    assert_eq!(rate_limiter.burst(), 1);
    assert_eq!(rate_limiter.period_ms(), 1);
}

#[test]
fn test_rate_limiter_set_limiter_burst_zero() {
    let mut rate_limiter = RateLimiter::default();

    assert!(rate_limiter.set_limiter(0, 2000).is_err());
}

#[test]
fn test_rate_limiter_set_limiter_period_ms_zero() {
    let mut rate_limiter = RateLimiter::default();

    assert!(rate_limiter.set_limiter(5, 0).is_err());
}

#[test]
fn test_rate_limiter_set_limiter_zero() {
    let mut rate_limiter = RateLimiter::default();

    assert!(rate_limiter.set_limiter(0, 0).is_err());
}

#[test]
fn test_rate_limiter_ready() {
    let rate_limiter = RateLimiter::default();

    assert!(rate_limiter.ready());
    assert!(!rate_limiter.ready());
}

#[test]
fn test_rate_limiter_block() {
    let rate_limiter = RateLimiter::default();

    let start_time = std::time::Instant::now();
    rate_limiter.block();
    let elapsed = start_time.elapsed().as_millis();

    assert!(elapsed < 1);

    let start_time = std::time::Instant::now();
    rate_limiter.block();
    let elapsed = start_time.elapsed().as_millis();

    assert!(elapsed >= 1);
}

#[test]
fn test_rate_limiter() {
    let mut rate_limiter = RateLimiter::default();

    assert_eq!(rate_limiter.burst(), 1);
    assert_eq!(rate_limiter.period_ms(), 1);

    rate_limiter.set_burst(3).unwrap();
    assert_eq!(rate_limiter.burst(), 3);

    rate_limiter.set_period_ms(1000).unwrap();
    assert_eq!(rate_limiter.period_ms(), 1000);

    rate_limiter
        .set_limiter(rate_limiter.burst(), rate_limiter.period_ms())
        .unwrap();

    assert!(rate_limiter.ready());

    for _ in 0..rate_limiter.burst() - 1 {
        let start_time = std::time::Instant::now();
        rate_limiter.block();
        let elapsed = start_time.elapsed().as_millis();

        assert!(elapsed < 1);
    }

    assert!(!rate_limiter.ready());
}

// With capacity one and a period of fifty milliseconds, the first probe
// succeeds, the second fails immediately, and after the period has elapsed a
// probe succeeds again.
#[test]
fn rate_limiter_refills_after_period() {
    let mut rate_limiter = RateLimiter::default();
    rate_limiter.set_period_ms(50).unwrap();

    assert!(rate_limiter.ready());
    assert!(!rate_limiter.ready());

    let start_time = std::time::Instant::now();
    while start_time.elapsed().as_millis() < 60 {}

    assert!(rate_limiter.ready());
}

// A configuration whose raw nanosecond quota would overflow the bucket's
// arithmetic is accepted: the burst handed to the bucket is capped, the
// readable values are stored exactly as set, and the limiter still grants.
#[test]
fn rate_limiter_accepts_huge_quota() {
    let mut rate_limiter = RateLimiter::default();
    rate_limiter.set_period_ms(60_000).unwrap();
    rate_limiter.set_burst(400_000_000).unwrap();

    assert_eq!(rate_limiter.burst(), 400_000_000);
    assert_eq!(rate_limiter.period_ms(), 60_000);
    assert!(rate_limiter.ready());
}

// A rejected configuration change leaves the prior configuration readable,
// exactly as set.
#[test]
fn rate_limiter_zero_leaves_configuration() {
    let mut rate_limiter = RateLimiter::default();
    rate_limiter.set_burst(7).unwrap();
    rate_limiter.set_period_ms(300).unwrap();

    assert!(rate_limiter.set_burst(0).is_err());
    assert!(rate_limiter.set_period_ms(0).is_err());

    assert_eq!(rate_limiter.burst(), 7);
    assert_eq!(rate_limiter.period_ms(), 300);
}
