use telemetry_relay::frame::TelemetrySample;
use telemetry_relay::hub::SessionSnapshot;
use telemetry_relay::ingest::{on_session_poll, on_telemetry_poll, Settings, SourceError, UPLINK_CONNECT_FAILURE_STATUS};

fn sample() -> TelemetrySample {
    TelemetrySample {
        air_temperature: Some(18.0f32.to_bits()),
        track_temperature: None,
        state: Some(3),
        flags: None,
        session_number: None,
        time_remaining: None,
        car_class_positions: None,
        car_positions: None,
        car_gears: None,
        car_rpms: None,
        car_steers: None,
        car_laps: None,
        car_laps_perc: None,
        car_pits: None,
    }
}

#[test]
fn default_settings() {
    let s = Settings::default();
    assert_eq!(s.telemetry_update_interval, 250);
    assert_eq!(s.session_update_interval, 5000);
    assert_eq!(s.telemetry_service_url, "ws://127.0.0.1:8088/source");
    assert_eq!(UPLINK_CONNECT_FAILURE_STATUS, 10);
}

#[test]
fn failed_telemetry_poll_skips_the_tick() {
    let r = on_telemetry_poll(Err(SourceError { reason: "simulator not running".to_string() }));
    assert!(r.is_none());
}

#[test]
fn telemetry_poll_builds_the_frame() {
    let f = on_telemetry_poll(Ok(sample())).unwrap();
    assert_eq!(f32::from_bits(f.air_temperature), 18.0);
    assert_eq!(f.state, 3);
    assert_eq!(f.car_pits.len(), 64);
}

#[test]
fn session_poll_forwards_or_skips() {
    let snap = SessionSnapshot { json: "{\"WeekendInfo\":{}}".to_string() };
    assert_eq!(on_session_poll(Ok(snap.clone())), Some(snap));
    assert_eq!(on_session_poll(Err(SourceError { reason: "gone".to_string() })), None);
}
