use miranda::telemetry::{
    decode_state, encode_state, CircuitBreakerState, TelemetryHub, CIRCUIT_BREAKER_RESET_THRESHOLD_MS,
    CIRCUIT_BREAKER_TRIP_THRESHOLD_MS,
};

#[test]
fn circuit_breaker_trips_after_threshold() {
    let mut hub = TelemetryHub::new(0);
    assert_eq!(hub.circuit_breaker(), CircuitBreakerState::Closed);
    let ticks = CIRCUIT_BREAKER_TRIP_THRESHOLD_MS / 100;
    for _ in 0..ticks {
        hub.tick_circuit_breaker(1, 100);
    }
    assert_eq!(hub.circuit_breaker(), CircuitBreakerState::Open);
}

#[test]
fn circuit_breaker_enters_half_open_before_tripping() {
    let mut hub = TelemetryHub::new(0);
    hub.tick_circuit_breaker(1, 100);
    assert_eq!(hub.circuit_breaker(), CircuitBreakerState::HalfOpen);
}

#[test]
fn circuit_breaker_resets_after_clean_period() {
    let mut hub = TelemetryHub::new(0);
    let trip_ticks = CIRCUIT_BREAKER_TRIP_THRESHOLD_MS / 100;
    for _ in 0..trip_ticks {
        hub.tick_circuit_breaker(1, 100);
    }
    assert_eq!(hub.circuit_breaker(), CircuitBreakerState::Open);
    let reset_ticks = CIRCUIT_BREAKER_RESET_THRESHOLD_MS / 100;
    for _ in 0..reset_ticks {
        hub.tick_circuit_breaker(0, 100);
    }
    assert_eq!(hub.circuit_breaker(), CircuitBreakerState::Closed);
}

#[test]
fn bad_streak_resets_when_frames_recover() {
    let mut hub = TelemetryHub::new(0);
    hub.tick_circuit_breaker(1, 100);
    hub.tick_circuit_breaker(0, 100);
    assert_eq!(hub.circuit_breaker(), CircuitBreakerState::Closed);
}

#[test]
fn tripped_breaker_stays_open_until_the_full_clean_period() {
    let mut hub = TelemetryHub::new(0);
    hub.tick_circuit_breaker(3, 500);
    assert_eq!(hub.circuit_breaker(), CircuitBreakerState::Open);
    for _ in 0..9 {
        hub.tick_circuit_breaker(0, 100);
        assert_eq!(hub.circuit_breaker(), CircuitBreakerState::Open);
    }
    // A new drop while tripped but under the trip threshold reads half-open.
    hub.tick_circuit_breaker(1, 100);
    assert_eq!(hub.circuit_breaker(), CircuitBreakerState::HalfOpen);
    for _ in 0..9 {
        hub.tick_circuit_breaker(0, 100);
        assert_eq!(hub.circuit_breaker(), CircuitBreakerState::HalfOpen);
    }
    hub.tick_circuit_breaker(0, 100);
    assert_eq!(hub.circuit_breaker(), CircuitBreakerState::Closed);
}

#[test]
fn state_codes_round_trip() {
    for s in [CircuitBreakerState::Closed, CircuitBreakerState::HalfOpen, CircuitBreakerState::Open] {
        assert_eq!(decode_state(encode_state(s)), s);
    }
    assert_eq!(encode_state(CircuitBreakerState::HalfOpen), 1);
    assert_eq!(encode_state(CircuitBreakerState::Open), 2);
    assert_eq!(decode_state(0), CircuitBreakerState::Closed);
    assert_eq!(decode_state(7), CircuitBreakerState::Closed);
}

#[test]
fn subscriber_receives_json_snapshot() {
    let mut hub = TelemetryHub::new(0);
    let mut rx = hub.subscribe();
    hub.publish_json("{\"framesPublished\":60}".to_string());
    assert_eq!(rx.try_recv().expect("snapshot expected"), "{\"framesPublished\":60}");
}

#[test]
fn multiple_subscribers_all_receive_same_snapshot() {
    let mut hub = TelemetryHub::new(0);
    let mut rx1 = hub.subscribe();
    let mut rx2 = hub.subscribe();
    hub.publish_json("{\"x\":1}".to_string());
    let j1 = rx1.try_recv().unwrap();
    let j2 = rx2.try_recv().unwrap();
    assert_eq!(j1, j2);
}

#[test]
fn disconnected_subscriber_is_pruned() {
    let mut hub = TelemetryHub::new(0);
    let rx = hub.subscribe();
    assert_eq!(hub.subscriber_count(), 1);
    drop(rx);
    hub.publish_json("{}".to_string());
    assert_eq!(hub.subscriber_count(), 0);
}

#[test]
fn snapshot_time_is_relative_to_the_epoch() {
    let hub = TelemetryHub::new(1_000);
    assert_eq!(hub.snapshot_t_us(1_000_000), 999_000);
    assert_eq!(hub.snapshot_t_us(10), 0);
}

#[test]
fn telemetry_hub_is_send_and_sync() {
    fn assert_ss<T: Send + Sync>() {}
    assert_ss::<TelemetryHub>();
}

#[test]
fn tick_fits_counters_tracks_the_streak_a_tick_extends() {
    let mut hub = TelemetryHub::new(0);
    assert!(hub.tick_fits_counters(1, u64::MAX));
    assert!(hub.tick_fits_counters(0, u64::MAX));
    hub.tick_circuit_breaker(1, 100);
    // The bad streak is now 100 ms: one more drop tick may add at most
    // u64::MAX - 100, while the good streak is still empty.
    assert!(hub.tick_fits_counters(1, u64::MAX - 100));
    assert!(!hub.tick_fits_counters(1, u64::MAX - 99));
    assert!(hub.tick_fits_counters(0, u64::MAX));
}
