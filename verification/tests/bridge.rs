use midoku::bridge::{exports_complete, CallBridge, LoadError};
use midoku::client::Client;

// Two calls into the same instance never interleave: while one call is
// between invoke and cleanup, a second invoke cannot start, and the
// in-flight counter never exceeds one.
#[test]
fn bridge_serializes_calls() {
    let mut bridge = CallBridge::new();
    assert_eq!(bridge.in_flight(), 0);

    assert!(bridge.start_invoke());
    assert_eq!(bridge.in_flight(), 1);

    // A concurrent call attempt must wait: it cannot enter.
    assert!(!bridge.start_invoke());
    assert_eq!(bridge.in_flight(), 1);

    bridge.finish_invoke(true);
    // Invoke done, cleanup still owed: a second call still cannot enter.
    assert!(!bridge.start_invoke());
    assert_eq!(bridge.in_flight(), 1);

    bridge.finish_cleanup(true);
    assert_eq!(bridge.in_flight(), 0);

    // Only now may the next call proceed.
    assert!(bridge.start_invoke());
    assert_eq!(bridge.in_flight(), 1);
}

// A failed invoke needs no cleanup and frees the instance.
#[test]
fn bridge_failed_invoke_frees_instance() {
    let mut bridge = CallBridge::new();
    assert!(bridge.start_invoke());
    bridge.finish_invoke(false);
    assert_eq!(bridge.in_flight(), 0);
    assert!(!bridge.poisoned());
    assert!(bridge.start_invoke());
}

// A failed cleanup poisons the instance: no further call starts.
#[test]
fn bridge_failed_cleanup_poisons() {
    let mut bridge = CallBridge::new();
    assert!(bridge.start_invoke());
    bridge.finish_invoke(true);
    bridge.finish_cleanup(false);

    assert!(bridge.poisoned());
    assert_eq!(bridge.in_flight(), 0);
    assert!(!bridge.start_invoke());
}

// Resolving the exported API surface succeeds only when all five functions
// are present; a missing export fails the load.
#[test]
fn exports_resolution() {
    assert_eq!(exports_complete(true, true, true, true, true), Ok(()));
    assert_eq!(
        exports_complete(true, false, true, true, true),
        Err(LoadError::LoadFailed)
    );
    assert_eq!(
        exports_complete(false, false, false, false, false),
        Err(LoadError::LoadFailed)
    );
}

#[test]
fn client_rate_limit_configuration() {
    let mut client = Client::new();
    assert_eq!(client.period_seconds(), None);
    assert_eq!(client.burst_size(), None);

    assert!(client.set_rate_limit_period(0).is_err());
    assert!(client.set_rate_limit_burst(0).is_err());
    assert_eq!(client.period_seconds(), None);
    assert_eq!(client.burst_size(), None);

    client.set_rate_limit_period(2).unwrap();
    assert_eq!(client.period_seconds(), Some(2));
    assert_eq!(client.burst_size(), None);

    client.set_rate_limit_burst(4).unwrap();
    assert_eq!(client.burst_size(), Some(4));
    assert_eq!(client.period_seconds(), Some(2));
}

// A client rate limit whose raw nanosecond quota would overflow the bucket's
// arithmetic is accepted: the readable values are stored exactly as set, and
// a full bucket still grants immediately.
#[test]
fn client_accepts_huge_quota() {
    let mut client = Client::new();
    client.set_rate_limit_burst(5).unwrap();
    client.set_rate_limit_period(u32::MAX).unwrap();

    assert_eq!(client.burst_size(), Some(5));
    assert_eq!(client.period_seconds(), Some(u32::MAX));

    let start = std::time::Instant::now();
    client.wait_ready();
    assert!(start.elapsed().as_millis() < 50);
}

// A client without a configured rate limit does not wait.
#[test]
fn client_unlimited_does_not_wait() {
    let client = Client::new();
    let start = std::time::Instant::now();
    client.wait_ready();
    assert!(start.elapsed().as_millis() < 50);
}
