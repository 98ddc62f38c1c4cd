use kuantum::anon_protocol::{AnonymousProtocol, TemporaryIdentity};

#[test]
fn identity_window_matches_duration() {
    let id = TemporaryIdentity::new_at(1_000, 60).expect("key generation");
    assert_eq!(id.created_at(), 1_000);
    assert_eq!(id.valid_until(), 1_060);
    assert!(id.is_valid_at(1_000));
    assert!(id.is_valid_at(1_060));
    assert!(!id.is_valid_at(1_061));
}

#[test]
fn identity_id_is_hex_rendered_token() {
    let id = TemporaryIdentity::new_at(0, 10).expect("key generation");
    assert_eq!(id.id().len(), 32);
    for b in id.id() {
        assert!(b.is_ascii_hexdigit() && !b.is_ascii_uppercase());
    }
}

#[test]
fn signing_is_deterministic_in_key_and_message() {
    let id = TemporaryIdentity::new_at(0, 10).expect("key generation");
    let msg = b"sign me".to_vec();
    let s1 = id.sign(&msg);
    let s2 = id.sign(&msg);
    assert_eq!(s1, s2);
    assert_eq!(s1.len(), 64);
}

#[test]
fn valid_identity_is_kept() {
    let mut proto = AnonymousProtocol::new(300);
    let first = proto.get_identity_at(1_000).expect("minting").id().clone();
    let second = proto.get_identity_at(1_200).expect("still valid").id().clone();
    assert_eq!(first, second);
}

#[test]
fn expired_identity_is_replaced_with_a_fresh_id() {
    let mut proto = AnonymousProtocol::new(300);
    let first = proto.get_identity_at(1_000).expect("minting").id().clone();
    let replaced = proto.get_identity_at(1_301).expect("re-minting");
    assert_eq!(replaced.created_at(), 1_301);
    assert_eq!(replaced.valid_until(), 1_601);
    assert_ne!(*replaced.id(), first);
}

#[test]
fn boundary_second_still_uses_the_old_identity() {
    let mut proto = AnonymousProtocol::new(300);
    let first = proto.get_identity_at(1_000).expect("minting").id().clone();
    let at_expiry = proto.get_identity_at(1_300).expect("boundary is still valid");
    assert_eq!(*at_expiry.id(), first);
}

#[test]
fn messages_carry_the_active_identity() {
    let mut proto = AnonymousProtocol::new(300);
    let m = proto
        .create_message_at(2_000, kuantum::anon_protocol::MessageType::Text, &b"x".to_vec(), 0)
        .expect("create");
    let id = proto.get_identity_at(2_000).expect("same identity").id().clone();
    assert_eq!(m.temp_id, id);
}

#[test]
fn duration_saturates_instead_of_overflowing() {
    let id = TemporaryIdentity::new_at(u64::MAX - 5, 100).expect("key generation");
    assert_eq!(id.valid_until(), u64::MAX);
    assert!(id.is_valid_at(u64::MAX));
}
