use kuantum::anon_protocol::{AnonMessage, AnonymousProtocol, MessageType};
use kuantum::CryptoError;

#[test]
fn open_of_seal_returns_the_message() {
    let mut proto = AnonymousProtocol::new(300);
    let payload = b"attack at dawn".to_vec();
    let m = proto
        .create_message_at(1_700_000_000, MessageType::Text, &payload, 2)
        .expect("create_message must succeed");
    let (packet, key) = proto.encrypt_message(&m).expect("seal must succeed");
    let opened = proto.decrypt_message(&packet, &key).expect("open with the sealing key");
    assert_eq!(opened, m);
}

#[test]
fn open_with_wrong_key_is_seal_error() {
    let mut proto = AnonymousProtocol::new(300);
    let m = proto
        .create_message_at(1_700_000_000, MessageType::Text, &b"hi".to_vec(), 0)
        .unwrap();
    let (packet, key) = proto.encrypt_message(&m).unwrap();
    let mut wrong = key.clone();
    wrong[0] ^= 1;
    assert_eq!(proto.decrypt_message(&packet, &wrong).unwrap_err(), CryptoError::Seal);
}

#[test]
fn open_with_flipped_ciphertext_byte_is_seal_error() {
    let mut proto = AnonymousProtocol::new(300);
    let m = proto
        .create_message_at(1_700_000_000, MessageType::Text, &b"hello".to_vec(), 0)
        .unwrap();
    let (mut packet, key) = proto.encrypt_message(&m).unwrap();
    let last = packet.len() - 1;
    packet[last] ^= 0x80;
    assert_eq!(proto.decrypt_message(&packet, &key).unwrap_err(), CryptoError::Seal);
}

#[test]
fn open_of_short_input_is_seal_error() {
    let proto = AnonymousProtocol::new(300);
    let key = vec![0u8; 32];
    assert_eq!(proto.decrypt_message(&vec![1, 2, 3], &key).unwrap_err(), CryptoError::Seal);
    // A nonce but no room for a tag: still shorter than nonce plus tag.
    assert_eq!(proto.decrypt_message(&vec![0u8; 20], &key).unwrap_err(), CryptoError::Seal);
}

#[test]
fn open_with_wrong_sized_key_is_seal_error() {
    let proto = AnonymousProtocol::new(300);
    let key = vec![0u8; 16];
    assert_eq!(proto.decrypt_message(&vec![0u8; 40], &key).unwrap_err(), CryptoError::Seal);
}

#[test]
fn sealed_packet_layout() {
    let mut proto = AnonymousProtocol::new(300);
    let m = proto
        .create_message_at(1_700_000_000, MessageType::Binary, &vec![1, 2, 3], 0)
        .unwrap();
    let encoded = m.encode();
    let (packet, key) = proto.encrypt_message(&m).unwrap();
    // nonce (12) || ciphertext || tag (16), and a 256-bit key.
    assert_eq!(packet.len(), encoded.len() + 12 + 16);
    assert_eq!(key.len(), 32);
}

#[test]
fn created_message_is_signed_and_stamped() {
    let mut proto = AnonymousProtocol::new(300);
    let m = proto
        .create_message_at(1_234, MessageType::Handshake, &b"hs".to_vec(), 5)
        .unwrap();
    assert_eq!(m.msg_type, 3);
    assert_eq!(m.timestamp, 1_234);
    assert_eq!(m.payload, b"hs".to_vec());
    assert_eq!(m.hop_count, 5);
    assert_eq!(m.signature.len(), 64);
    assert_eq!(m.temp_id.len(), 32);
}

#[test]
fn tampered_message_still_decodes_but_differs() {
    // Flipping one payload byte of the wire bytes must not panic and must
    // yield a different record, never corrupted fields elsewhere.
    let m = AnonMessage {
        msg_type: 0,
        timestamp: 9,
        temp_id: b"aa".to_vec(),
        payload: vec![1, 2, 3],
        signature: vec![4; 64],
        hop_count: 1,
    };
    let mut bytes = m.encode();
    // Payload record value starts after two fixed records and the id record.
    let payload_value_at = 9 + 13 + (5 + 2) + 5;
    bytes[payload_value_at] ^= 0xFF;
    let decoded = AnonMessage::decode(&bytes).expect("still well-formed wire bytes");
    assert_ne!(decoded, m);
    assert_eq!(decoded.timestamp, m.timestamp);
    assert_eq!(decoded.signature, m.signature);
}
