use kuantum::anon_protocol::{AnonMessage, MessageType};
use kuantum::CryptoError;

fn sample_message() -> AnonMessage {
    AnonMessage {
        msg_type: 1,
        timestamp: 1_700_000_000,
        temp_id: b"0123456789abcdef0123456789abcdef".to_vec(),
        payload: vec![10, 20, 30, 40],
        signature: vec![9; 64],
        hop_count: 7,
    }
}

#[test]
fn decode_of_encode_is_identity() {
    let m = sample_message();
    let encoded = m.encode();
    let decoded = AnonMessage::decode(&encoded).expect("round trip must decode");
    assert_eq!(decoded, m);
}

#[test]
fn decode_of_encode_empty_fields() {
    let m = AnonMessage {
        msg_type: 0,
        timestamp: 0,
        temp_id: Vec::new(),
        payload: Vec::new(),
        signature: Vec::new(),
        hop_count: 0,
    };
    let decoded = AnonMessage::decode(&m.encode()).expect("round trip must decode");
    assert_eq!(decoded, m);
}

#[test]
fn encode_produces_exact_wire_bytes() {
    let m = AnonMessage {
        msg_type: 1,
        timestamp: 2,
        temp_id: vec![0xAB],
        payload: vec![1, 2],
        signature: Vec::new(),
        hop_count: 3,
    };
    let expected: Vec<u8> = vec![
        1, 0, 0, 0, 4, 0, 0, 0, 1, // type
        2, 0, 0, 0, 8, 0, 0, 0, 0, 0, 0, 0, 2, // timestamp
        3, 0, 0, 0, 1, 0xAB, // sender id
        4, 0, 0, 0, 2, 1, 2, // payload
        5, 0, 0, 0, 0, // signature (empty)
        6, 0, 0, 0, 4, 0, 0, 0, 3, // hop count
    ];
    assert_eq!(m.encode(), expected);
}

#[test]
fn unknown_tags_are_skipped() {
    let m = sample_message();
    let mut bytes = m.encode();
    // A record with unknown tag 9 and a 2-byte value.
    bytes.extend_from_slice(&[9, 0, 0, 0, 2, 0xFF, 0xFE]);
    let decoded = AnonMessage::decode(&bytes).expect("unknown tag must be skipped");
    assert_eq!(decoded, m);
}

#[test]
fn truncated_record_is_codec_error() {
    // Tag 9 claims a 10-byte value but no bytes follow.
    let bytes = vec![9u8, 0, 0, 0, 10];
    assert_eq!(AnonMessage::decode(&bytes).unwrap_err(), CryptoError::Codec);
}

#[test]
fn short_header_is_codec_error() {
    let bytes = vec![1u8, 0, 0];
    assert_eq!(AnonMessage::decode(&bytes).unwrap_err(), CryptoError::Codec);
}

#[test]
fn ill_sized_fixed_field_is_codec_error() {
    // Tag 1 (type) must carry exactly 4 bytes.
    let bytes = vec![1u8, 0, 0, 0, 2, 0, 1];
    assert_eq!(AnonMessage::decode(&bytes).unwrap_err(), CryptoError::Codec);
}

#[test]
fn empty_input_decodes_to_default_record() {
    let decoded = AnonMessage::decode(&Vec::new()).expect("empty input is a default record");
    assert_eq!(decoded.msg_type, 0);
    assert_eq!(decoded.timestamp, 0);
    assert!(decoded.temp_id.is_empty());
    assert!(decoded.payload.is_empty());
    assert!(decoded.signature.is_empty());
    assert_eq!(decoded.hop_count, 0);
}

#[test]
fn message_type_from_i32_all_values() {
    assert_eq!(MessageType::from_i32(0), Some(MessageType::Text));
    assert_eq!(MessageType::from_i32(1), Some(MessageType::Binary));
    assert_eq!(MessageType::from_i32(2), Some(MessageType::Command));
    assert_eq!(MessageType::from_i32(3), Some(MessageType::Handshake));
    assert_eq!(MessageType::from_i32(4), None);
    assert_eq!(MessageType::from_i32(-1), None);
}

#[test]
fn message_type_default_is_text() {
    assert_eq!(MessageType::default(), MessageType::Text);
}

#[test]
fn get_message_type_reads_wire_value() {
    let mut m = sample_message();
    assert_eq!(m.get_message_type(), Some(MessageType::Binary));
    m.msg_type = 99;
    assert_eq!(m.get_message_type(), None);
}

#[test]
fn anon_message_new_sets_fields() {
    let id = b"deadbeef".to_vec();
    let m = AnonMessage::new(MessageType::Command, &id, vec![5, 6], vec![7], 11);
    assert_eq!(m.msg_type, 2);
    assert_eq!(m.temp_id, id);
    assert_eq!(m.payload, vec![5, 6]);
    assert_eq!(m.signature, vec![7]);
    assert_eq!(m.hop_count, 11);
}
