use telemetry_relay::protocol::{
    decode_message, encode_message, encode_viewer_message, kind_of_tag, tag, DecodeError, PayloadKind,
};

#[test]
fn telemetry_message_is_tag_then_payload() {
    assert_eq!(encode_message(PayloadKind::Telemetry, "{\"state\":4}"), "T{\"state\":4}");
}

#[test]
fn session_message_is_tag_then_payload() {
    assert_eq!(encode_message(PayloadKind::Session, "{}"), "S{}");
}

#[test]
fn decode_telemetry_message() {
    let r = decode_message("T{\"flags\":1}");
    assert_eq!(r, Ok((PayloadKind::Telemetry, "{\"flags\":1}".to_string())));
}

#[test]
fn decode_session_message() {
    let r = decode_message("S{\"WeekendInfo\":{}}");
    assert_eq!(r, Ok((PayloadKind::Session, "{\"WeekendInfo\":{}}".to_string())));
}

#[test]
fn decode_unknown_tag_is_rejected() {
    assert_eq!(decode_message("X{}"), Err(DecodeError::UnknownTag('X')));
    assert_eq!(decode_message("t{}"), Err(DecodeError::UnknownTag('t')));
}

#[test]
fn decode_empty_message_is_rejected() {
    assert_eq!(decode_message(""), Err(DecodeError::Empty));
}

#[test]
fn decode_tag_alone_gives_empty_payload() {
    assert_eq!(decode_message("T"), Ok((PayloadKind::Telemetry, String::new())));
}

#[test]
fn decode_keeps_non_ascii_payload() {
    assert_eq!(decode_message("SNürburgring – GP"), Ok((PayloadKind::Session, "Nürburgring – GP".to_string())));
    assert_eq!(decode_message("é{}"), Err(DecodeError::UnknownTag('é')));
}

#[test]
fn framing_round_trip() {
    for kind in [PayloadKind::Telemetry, PayloadKind::Session] {
        for payload in ["", "{}", "{\"car_pits\":[true,false]}", "ünïcødé"] {
            let text = encode_message(kind, payload);
            assert_eq!(decode_message(&text), Ok((kind, payload.to_string())));
        }
    }
}

#[test]
fn viewer_message_is_json_pair() {
    assert_eq!(encode_viewer_message(PayloadKind::Telemetry, "{\"state\":4}"), "[\"T\",{\"state\":4}]");
    assert_eq!(encode_viewer_message(PayloadKind::Session, "{}"), "[\"S\",{}]");
}

#[test]
fn tags_and_kinds_agree() {
    assert_eq!(tag(PayloadKind::Telemetry), 'T');
    assert_eq!(tag(PayloadKind::Session), 'S');
    assert_eq!(kind_of_tag('T'), Some(PayloadKind::Telemetry));
    assert_eq!(kind_of_tag('S'), Some(PayloadKind::Session));
    assert_eq!(kind_of_tag('Q'), None);
}
