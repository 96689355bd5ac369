use stamper::codec::{decode, encode, Frame, DEFAULT_HEARTBEAT_INTERVAL_MS};

#[test]
fn round_trip_close() {
    let encoded = encode(&Frame::Close).unwrap();
    assert_eq!(encoded, "1");
    assert_eq!(decode(&encoded), Frame::Close);
}

#[test]
fn round_trip_ping() {
    let encoded = encode(&Frame::Ping).unwrap();
    assert_eq!(encoded, "2");
    assert_eq!(decode(&encoded), Frame::Ping);
}

#[test]
fn round_trip_pong() {
    let encoded = encode(&Frame::Pong).unwrap();
    assert_eq!(encoded, "3");
    assert_eq!(decode(&encoded), Frame::Pong);
}

#[test]
fn round_trip_event() {
    let frame = Frame::Event {
        name: "queue-update".to_string(),
        payload: "[\"queue-update\",{\"extra\":1}]".to_string(),
    };
    let encoded = encode(&frame).unwrap();
    assert_eq!(encoded, "42[\"queue-update\",{\"extra\":1}]");
    assert_eq!(decode(&encoded), frame);
}

#[test]
fn round_trip_event_other_name() {
    let frame = Frame::Event {
        name: "some-other-event".to_string(),
        payload: "[\"some-other-event\",1,2,3]".to_string(),
    };
    let encoded = encode(&frame).unwrap();
    assert_eq!(decode(&encoded), frame);
}

#[test]
fn encode_unsent_frames() {
    assert!(encode(&Frame::HandshakeAck { heartbeat_interval_ms: 1000 }).is_none());
    assert!(encode(&Frame::Unknown).is_none());
}

#[test]
fn decode_empty_is_unknown() {
    assert_eq!(decode(""), Frame::Unknown);
}

#[test]
fn decode_random_text_is_unknown() {
    assert_eq!(decode("zebra"), Frame::Unknown);
    assert_eq!(decode("9"), Frame::Unknown);
    assert_eq!(decode("\u{1F3B5} not a frame"), Frame::Unknown);
}

#[test]
fn decode_control_tags_are_exact() {
    assert_eq!(decode("1"), Frame::Close);
    assert_eq!(decode("2"), Frame::Ping);
    assert_eq!(decode("3"), Frame::Pong);
    assert_eq!(decode("1x"), Frame::Unknown);
    assert_eq!(decode("2probe"), Frame::Unknown);
    assert_eq!(decode("3 "), Frame::Unknown);
}

#[test]
fn decode_event_prefix_needs_both_characters() {
    assert_eq!(decode("4"), Frame::Unknown);
    assert_eq!(decode("43[\"queue-update\"]"), Frame::Unknown);
}

#[test]
fn decode_truncated_event_json_is_unknown() {
    assert_eq!(decode("42[\"queue-up"), Frame::Unknown);
    assert_eq!(decode("42"), Frame::Unknown);
    assert_eq!(decode("42{}"), Frame::Unknown);
}

#[test]
fn decode_event_first_element_must_be_string() {
    assert_eq!(decode("42[5,\"queue-update\"]"), Frame::Unknown);
    assert_eq!(decode("42[]"), Frame::Unknown);
}

#[test]
fn decode_event_extracts_first_element() {
    let frame = decode("42[\"queue-update\", {}]");
    match frame {
        Frame::Event { name, payload } => {
            assert_eq!(name, "queue-update");
            assert_eq!(payload, "[\"queue-update\", {}]");
        }
        other => panic!("expected an event frame, got {:?}", other),
    }
}

#[test]
fn decode_handshake_reads_interval_by_name() {
    let raw = "0{\"sid\":\"abc\",\"upgrades\":[],\"pingInterval\":1000,\"pingTimeout\":5000}";
    assert_eq!(decode(raw), Frame::HandshakeAck { heartbeat_interval_ms: 1000 });
    let reordered = "0{\"pingInterval\":2500,\"sid\":\"xyz\"}";
    assert_eq!(decode(reordered), Frame::HandshakeAck { heartbeat_interval_ms: 2500 });
}

#[test]
fn decode_handshake_malformed_payload_defaults() {
    let default = Frame::HandshakeAck {
        heartbeat_interval_ms: DEFAULT_HEARTBEAT_INTERVAL_MS,
    };
    assert_eq!(decode("0"), default);
    assert_eq!(decode("0{truncated"), default);
    assert_eq!(decode("0{\"sid\":\"abc\"}"), default);
    assert_eq!(decode("0{\"pingInterval\":\"soon\"}"), default);
    assert_eq!(decode("0{\"pingInterval\":-3}"), default);
}
