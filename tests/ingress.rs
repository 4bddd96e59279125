use telemetry_relay::hub::SessionSnapshot;
use telemetry_relay::ingress::{classify, ingress, Inbound};
use telemetry_relay::protocol::{DecodeError, PayloadKind};

#[test]
fn telemetry_payload_is_passed_on_for_decoding() {
    assert_eq!(ingress("T{\"state\":4}"), Inbound::Telemetry("{\"state\":4}".to_string()));
}

#[test]
fn json_session_is_kept() {
    let text = "S{\"WeekendInfo\":{\"TrackName\":\"spa\"}}";
    assert_eq!(
        ingress(text),
        Inbound::Session(SessionSnapshot { json: "{\"WeekendInfo\":{\"TrackName\":\"spa\"}}".to_string() })
    );
}

#[test]
fn malformed_session_is_dropped() {
    assert_eq!(ingress("S{\"WeekendInfo\":"), Inbound::MalformedSession);
    assert_eq!(ingress("Snot json"), Inbound::MalformedSession);
    assert_eq!(ingress("S"), Inbound::MalformedSession);
}

#[test]
fn unknown_or_missing_tag_is_dropped() {
    assert_eq!(ingress("Z{}"), Inbound::Unrecognized(DecodeError::UnknownTag('Z')));
    assert_eq!(ingress(""), Inbound::Unrecognized(DecodeError::Empty));
}

#[test]
fn classify_follows_the_validity_it_is_given() {
    let ok = classify(Ok((PayloadKind::Session, "whatever".to_string())), true);
    assert_eq!(ok, Inbound::Session(SessionSnapshot { json: "whatever".to_string() }));
    let bad = classify(Ok((PayloadKind::Session, "{}".to_string())), false);
    assert_eq!(bad, Inbound::MalformedSession);
    let t = classify(Ok((PayloadKind::Telemetry, "x".to_string())), false);
    assert_eq!(t, Inbound::Telemetry("x".to_string()));
    let e = classify(Err(DecodeError::Empty), true);
    assert_eq!(e, Inbound::Unrecognized(DecodeError::Empty));
}
