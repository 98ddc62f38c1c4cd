use kuantum::multi_layer::{EncryptionLayer, MultiLayerEncryption};
use kuantum::onion;
use kuantum::CryptoError;

#[test]
fn three_layer_round_trip_over_hello() {
    let ml = MultiLayerEncryption::new(3).expect("layer generation");
    let data = b"hello".to_vec();
    let wrapped = ml.encrypt(&data).expect("layering");
    // 5 payload bytes plus one (nonce, tag) overhead per layer.
    assert_eq!(wrapped.len(), 5 + 3 * (12 + 16));
    let peeled = ml.decrypt(&wrapped).expect("peeling");
    assert_eq!(peeled, data);
}

#[test]
fn zero_layer_round_trip_is_identity() {
    let ml = MultiLayerEncryption::new(0).expect("layer generation");
    let data = vec![1, 2, 3, 4];
    let wrapped = ml.encrypt(&data).expect("layering");
    assert_eq!(wrapped, data);
    assert_eq!(ml.decrypt(&wrapped).expect("peeling"), data);
}

#[test]
fn decrypt_with_a_different_instance_fails() {
    let a = MultiLayerEncryption::new(2).unwrap();
    let b = MultiLayerEncryption::new(2).unwrap();
    let wrapped = a.encrypt(&b"secret".to_vec()).unwrap();
    assert_eq!(b.decrypt(&wrapped).unwrap_err(), CryptoError::Seal);
}

#[test]
fn truncated_onion_fails_without_partial_success() {
    let ml = MultiLayerEncryption::new(2).unwrap();
    let wrapped = ml.encrypt(&b"xyz".to_vec()).unwrap();
    let truncated = wrapped[..10].to_vec();
    assert_eq!(ml.decrypt(&truncated).unwrap_err(), CryptoError::Seal);
}

#[test]
fn add_layer_grows_the_stack() {
    let mut ml = MultiLayerEncryption::new(1).unwrap();
    assert_eq!(ml.layer_count(), 1);
    ml.add_layer().expect("layer generation");
    assert_eq!(ml.layer_count(), 2);
    let data = b"deeper".to_vec();
    let wrapped = ml.encrypt(&data).unwrap();
    assert_eq!(wrapped.len(), data.len() + 2 * 28);
    assert_eq!(ml.decrypt(&wrapped).unwrap(), data);
}

#[test]
fn single_layer_round_trip() {
    let layer = EncryptionLayer::new().expect("key generation");
    let data = b"one hop".to_vec();
    let wrapped = layer.encrypt(&data).unwrap();
    assert_eq!(wrapped.len(), data.len() + 28);
    assert_eq!(layer.decrypt(&wrapped).unwrap(), data);
}

#[test]
fn single_layer_rejects_short_input() {
    let layer = EncryptionLayer::new().unwrap();
    assert_eq!(layer.decrypt(&vec![0u8; 5]).unwrap_err(), CryptoError::Seal);
    // A nonce but no room for a tag.
    assert_eq!(layer.decrypt(&vec![0u8; 20]).unwrap_err(), CryptoError::Seal);
}

#[test]
fn suite_chain_round_trip() {
    let data = b"layered payload".to_vec();
    let suites = vec![
        onion::EncryptionLayer::ChaCha20Poly1305,
        onion::EncryptionLayer::AesGcm,
        onion::EncryptionLayer::ChaCha20Poly1305,
    ];
    let (sealed, nonces, keys) = onion::multi_layer_encrypt(&data, &suites).expect("sealing");
    assert_eq!(nonces.len(), 3);
    assert_eq!(keys.len(), 3);
    assert_eq!(sealed.len(), data.len() + 3 * 16);
    // Peel in reverse order, outermost (last applied) first.
    let mut current = sealed;
    for i in (0..suites.len()).rev() {
        current = onion::decrypt_layer(&current, &nonces[i], &keys[i], suites[i])
            .expect("each layer must open");
    }
    assert_eq!(current, data);
}

#[test]
fn decrypt_layer_rejects_wrong_sizes_and_keys() {
    let data = b"abc".to_vec();
    let suites = vec![onion::EncryptionLayer::AesGcm];
    let (sealed, nonces, keys) = onion::multi_layer_encrypt(&data, &suites).unwrap();
    let bad_nonce = vec![0u8; 11];
    assert_eq!(
        onion::decrypt_layer(&sealed, &bad_nonce, &keys[0], suites[0]).unwrap_err(),
        CryptoError::Seal
    );
    let bad_key = vec![0u8; 31];
    assert_eq!(
        onion::decrypt_layer(&sealed, &nonces[0], &bad_key, suites[0]).unwrap_err(),
        CryptoError::Seal
    );
    let mut wrong_key = keys[0].clone();
    wrong_key[5] ^= 1;
    assert_eq!(
        onion::decrypt_layer(&sealed, &nonces[0], &wrong_key, suites[0]).unwrap_err(),
        CryptoError::Seal
    );
}

#[test]
fn onion_packet_shape_and_route() {
    let peers: Vec<String> = (0..5).map(|i| format!("peer-{}", i)).collect();
    let data = b"onion".to_vec();
    let packet = onion::create_onion_packet(&data, &peers, 3).expect("packet");
    assert_eq!(packet.layers.len(), 3);
    assert_eq!(packet.nonces.len(), 3);
    assert_eq!(packet.keys.len(), 3);
    assert_eq!(packet.data.len(), data.len() + 3 * 16);
    assert!(packet.route.len() >= 3 && packet.route.len() <= 6);
    for hop in &packet.route {
        assert!(peers.contains(hop));
    }
    // The recorded keys, nonces and suites undo the chain.
    let mut current = packet.data.clone();
    for i in (0..packet.layers.len()).rev() {
        current = onion::decrypt_layer(&current, &packet.nonces[i], &packet.keys[i], packet.layers[i])
            .expect("each recorded layer must open");
    }
    assert_eq!(current, data);
}

#[test]
fn onion_packet_with_no_peers_has_empty_route() {
    let peers: Vec<String> = Vec::new();
    let packet = onion::create_onion_packet(&b"x".to_vec(), &peers, 1).unwrap();
    assert!(packet.route.is_empty());
    assert_eq!(packet.layers.len(), 1);
}

#[test]
fn free_route_generator_draws_from_the_pool() {
    let peers: Vec<String> = vec!["a".into(), "b".into(), "c".into()];
    let route = onion::generate_random_route(&peers, 10);
    assert_eq!(route.len(), 10);
    for hop in &route {
        assert!(peers.contains(hop));
    }
    let empty: Vec<String> = Vec::new();
    assert!(onion::generate_random_route(&empty, 4).is_empty());
}
