use telemetry_relay::viewer::{Phase, ViewerAction, ViewerConnection, ViewerEvent, CLIENT_TIMEOUT_MS};

fn active_at(now: u64, id: usize) -> ViewerConnection {
    let mut c = ViewerConnection::new(now);
    assert_eq!(c.step(ViewerEvent::Registered { id, now }), ViewerAction::Nothing);
    assert_eq!(c.phase, Phase::Active);
    c
}

#[test]
fn silence_past_timeout_closes_and_deregisters_once() {
    let mut c = active_at(0, 7);
    assert_eq!(c.step(ViewerEvent::Tick { now: 10_000 }), ViewerAction::SendPing);
    assert_eq!(c.step(ViewerEvent::Tick { now: 10_001 }), ViewerAction::Close);
    assert_eq!(c.phase, Phase::Closing);
    assert_eq!(c.step(ViewerEvent::Tick { now: 11_000 }), ViewerAction::Nothing);
    assert_eq!(c.step(ViewerEvent::Stopped), ViewerAction::Deregister { id: 7 });
    assert_eq!(c.phase, Phase::Terminated);
    assert_eq!(c.step(ViewerEvent::Stopped), ViewerAction::Nothing);
    assert_eq!(c.step(ViewerEvent::Tick { now: 30_000 }), ViewerAction::Nothing);
    assert_eq!(CLIENT_TIMEOUT_MS, 10_000);
}

#[test]
fn pong_at_nine_seconds_keeps_connection_alive_at_ten() {
    let mut c = active_at(0, 1);
    assert_eq!(c.step(ViewerEvent::Pong { now: 9_000 }), ViewerAction::Nothing);
    assert_eq!(c.step(ViewerEvent::Tick { now: 10_000 }), ViewerAction::SendPing);
    assert_eq!(c.step(ViewerEvent::Tick { now: 11_000 }), ViewerAction::SendPing);
    assert_eq!(c.phase, Phase::Active);
    assert_eq!(c.step(ViewerEvent::Tick { now: 19_001 }), ViewerAction::Close);
}

#[test]
fn ping_from_peer_is_answered_and_refreshes() {
    let mut c = active_at(100, 2);
    assert_eq!(c.step(ViewerEvent::Ping { now: 5_000 }), ViewerAction::SendPong);
    assert_eq!(c.last_heartbeat, 5_000);
    assert_eq!(c.step(ViewerEvent::Tick { now: 15_000 }), ViewerAction::SendPing);
}

#[test]
fn peer_close_leads_to_single_deregistration() {
    let mut c = active_at(0, 3);
    assert_eq!(c.step(ViewerEvent::Broadcast), ViewerAction::Forward);
    assert_eq!(c.step(ViewerEvent::PeerClosed), ViewerAction::Close);
    assert_eq!(c.step(ViewerEvent::Broadcast), ViewerAction::Nothing);
    assert_eq!(c.step(ViewerEvent::Stopped), ViewerAction::Deregister { id: 3 });
    assert_eq!(c.step(ViewerEvent::Stopped), ViewerAction::Nothing);
}

#[test]
fn failed_registration_terminates_without_deregistering() {
    let mut c = ViewerConnection::new(0);
    assert_eq!(c.step(ViewerEvent::Broadcast), ViewerAction::Nothing);
    assert_eq!(c.step(ViewerEvent::RegistrationFailed), ViewerAction::Close);
    assert_eq!(c.phase, Phase::Terminated);
    assert_eq!(c.step(ViewerEvent::Stopped), ViewerAction::Nothing);
}

#[test]
fn stream_error_closes() {
    let mut c = active_at(0, 4);
    assert_eq!(c.step(ViewerEvent::StreamError), ViewerAction::Close);
    assert_eq!(c.phase, Phase::Closing);
}
