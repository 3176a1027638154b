use midoku::resource_table::ResourceTableError;
use midoku::response::IncomingResponse;
use midoku::settings::Value;
use midoku::state::State;

fn sample_response() -> IncomingResponse {
    IncomingResponse::new(
        200,
        vec![("content-type".to_string(), "application/json".to_string())],
        vec![123, 125],
    )
}

// The settings capability: the sandbox observes exactly what the host set,
// and a missing key fails.
#[test]
fn state_settings_round_trip() {
    let mut state = State::default();
    state.set_setting("ua".to_string(), Value::String("midoku/1.0".to_string()));

    assert_eq!(
        state.host_get(&"ua".to_string()),
        Ok(Value::String("midoku/1.0".to_string()))
    );
    assert_eq!(state.host_get(&"missing".to_string()), Err(()));
}

// Without a configured limiter, reads say so and every operation is allowed.
#[test]
fn state_limiter_absent() {
    let state = State::default();
    assert_eq!(state.host_burst(), None);
    assert_eq!(state.host_period_ms(), None);
    assert!(state.host_ready());
    state.host_block();
}

// The first configuration call installs a default limiter and then applies
// the change.
#[test]
fn state_set_burst_installs_default() {
    let mut state = State::default();
    state.host_set_burst(3).unwrap();

    assert_eq!(state.host_burst(), Some(3));
    assert_eq!(state.host_period_ms(), Some(1));
}

// A rejected zero still installs the default limiter but changes nothing of
// its configuration.
#[test]
fn state_set_period_zero_keeps_default() {
    let mut state = State::default();
    assert!(state.host_set_period_ms(0).is_err());

    assert_eq!(state.host_burst(), Some(1));
    assert_eq!(state.host_period_ms(), Some(1));

    state.host_set_period_ms(250).unwrap();
    assert_eq!(state.host_period_ms(), Some(250));
    assert_eq!(state.host_burst(), Some(1));
}

// A stored response is readable through its handle until it is dropped;
// dropping it again fails NotPresent.
#[test]
fn state_response_lifecycle() {
    let mut state = State::default();
    let handle = state.host_store_response(sample_response()).unwrap();

    assert_eq!(state.host_response_status_code(handle), Ok(200));
    assert_eq!(
        state.host_response_headers(handle),
        Ok(vec![("content-type".to_string(), "application/json".to_string())])
    );
    assert_eq!(state.host_response_bytes(handle), Ok(vec![123, 125]));

    assert_eq!(state.host_response_drop(handle), Ok(()));

    assert_eq!(
        state.host_response_status_code(handle),
        Err(ResourceTableError::NotPresent)
    );
    assert_eq!(
        state.host_response_drop(handle),
        Err(ResourceTableError::NotPresent)
    );
}

// Dropping a response frees its slot, and the next stored response reuses
// exactly that handle.
#[test]
fn state_response_handle_reuse() {
    let mut state = State::default();
    let first = state.host_store_response(sample_response()).unwrap();
    let second = state.host_store_response(sample_response()).unwrap();
    assert_ne!(first, second);

    state.host_response_drop(first).unwrap();
    let third = state.host_store_response(sample_response()).unwrap();
    assert_eq!(third, first);

    // The untouched handle still works.
    assert_eq!(state.host_response_status_code(second), Ok(200));
}
