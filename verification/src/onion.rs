//! Suite-tagged layered encryption for onion packets: each layer seals with
//! one of two interchangeable AEAD suites under a fresh key and nonce, and
//! the keys and nonces travel beside the ciphertext so the peeling party can
//! undo every layer.

use vstd::prelude::*;
use crate::CryptoError;
use crate::primitives::{
    KEY_LEN, MAX_SEAL_LEN, NONCE_LEN, TAG_LEN, aes_gcm_open, aes_gcm_open_bytes, aes_gcm_seal,
    aes_gcm_seal_bytes, chacha_open, chacha_open_bytes, chacha_seal, chacha_seal_bytes, rand_below,
    random_bytes,
};

verus! {

/// The interchangeable AEAD suites a layer may select.
#[derive(Debug, Clone, Copy, PartialEq, Eq, Structural)]
pub enum EncryptionLayer {
    ChaCha20Poly1305,
    AesGcm,
}

/// The ciphertext-with-tag the selected suite produces.
pub open spec fn suite_seal_bytes(
    layer: EncryptionLayer,
    key: Seq<u8>,
    nonce: Seq<u8>,
    d: Seq<u8>,
) -> Seq<u8> {
    match layer {
        EncryptionLayer::ChaCha20Poly1305 => chacha_seal_bytes(key, nonce, d),
        EncryptionLayer::AesGcm => aes_gcm_seal_bytes(key, nonce, d),
    }
}

/// The plaintext the selected suite recovers, or `None` when its tag fails.
pub open spec fn suite_open_bytes(
    layer: EncryptionLayer,
    key: Seq<u8>,
    nonce: Seq<u8>,
    d: Seq<u8>,
) -> Option<Seq<u8>> {
    match layer {
        EncryptionLayer::ChaCha20Poly1305 => chacha_open_bytes(key, nonce, d),
        EncryptionLayer::AesGcm => aes_gcm_open_bytes(key, nonce, d),
    }
}

/// `d` sealed under every suite in order with the matching key and nonce,
/// suite 0 innermost; nonces are not embedded in the ciphertext.
pub open spec fn chain_seal(
    layers: Seq<EncryptionLayer>,
    keys: Seq<Seq<u8>>,
    nonces: Seq<Seq<u8>>,
    d: Seq<u8>,
) -> Seq<u8>
    recommends
        keys.len() == layers.len(),
        nonces.len() == layers.len(),
    decreases layers.len(),
{
    if layers.len() == 0 {
        d
    } else {
        suite_seal_bytes(
            layers.last(),
            keys.last(),
            nonces.last(),
            chain_seal(layers.drop_last(), keys.drop_last(), nonces.drop_last(), d),
        )
    }
}

/// The bytes recovered by opening every suite in reverse order, or `None` as
/// soon as any layer fails.
pub open spec fn chain_open(
    layers: Seq<EncryptionLayer>,
    keys: Seq<Seq<u8>>,
    nonces: Seq<Seq<u8>>,
    d: Seq<u8>,
) -> Option<Seq<u8>>
    recommends
        keys.len() == layers.len(),
        nonces.len() == layers.len(),
    decreases layers.len(),
{
    if layers.len() == 0 {
        Some(d)
    } else {
        match suite_open_bytes(layers.last(), keys.last(), nonces.last(), d) {
            Some(inner) => chain_open(
                layers.drop_last(),
                keys.drop_last(),
                nonces.drop_last(),
                inner,
            ),
            None => None,
        }
    }
}

/// An onion packet: the layered ciphertext, the per-layer nonces, keys and
/// suites in application order, and the randomized route it should travel.
#[derive(Debug, Clone)]
pub struct EncryptedPacket {
    pub data: Vec<u8>,
    pub nonces: Vec<Vec<u8>>,
    pub keys: Vec<Vec<u8>>,
    pub layers: Vec<EncryptionLayer>,
    pub route: Vec<String>,
}

/// A route of exactly `length` hops drawn uniformly with replacement from
/// `peer_ids`; an empty peer set yields an empty route.
pub fn generate_random_route(peer_ids: &Vec<String>, length: usize) -> (r: Vec<String>)
    ensures
        r@.len() == (if peer_ids@.len() == 0 {
            0int
        } else {
            length as int
        }),
        forall|i: int| 0 <= i < r@.len() ==> peer_ids@.contains(#[trigger] r@[i]),
{
    if peer_ids.is_empty() {
        return Vec::new();
    }
    let n = peer_ids.len();
    let mut route: Vec<String> = Vec::new();
    let mut i: usize = 0;
    while i < length
        invariant
            i <= length,
            n == peer_ids@.len(),
            n > 0,
            route@.len() == i,
            forall|j: int| 0 <= j < i ==> peer_ids@.contains(#[trigger] route@[j]),
        decreases length - i,
    {
        let idx = rand_below(n as u64) as usize;
        let peer = peer_ids[idx].clone();
        route.push(peer);
        i = i + 1;
    }
    route
}

/// Seals `data` with the selected suite.
fn seal_with_suite(layer: EncryptionLayer, key: &Vec<u8>, nonce: &Vec<u8>, data: &Vec<u8>) -> (r:
    Vec<u8>)
    requires
        key@.len() == KEY_LEN,
        nonce@.len() == NONCE_LEN,
        data@.len() <= MAX_SEAL_LEN,
    ensures
        r@ == suite_seal_bytes(layer, key@, nonce@, data@),
        r@.len() == data@.len() + TAG_LEN,
        suite_open_bytes(layer, key@, nonce@, r@) == Some(data@),
{
    match layer {
        EncryptionLayer::ChaCha20Poly1305 => chacha_seal(key, nonce, data),
        EncryptionLayer::AesGcm => aes_gcm_seal(key, nonce, data),
    }
}

/// Seals `data` under every suite of `layers` in order, each with a fresh
/// random key and nonce: returns the layered ciphertext with the nonces and
/// keys in application order; opening the chain with them recovers `data`.
pub fn multi_layer_encrypt(data: &Vec<u8>, layers: &Vec<EncryptionLayer>) -> (r: Result<
    (Vec<u8>, Vec<Vec<u8>>, Vec<Vec<u8>>),
    CryptoError,
>)
    requires
        data@.len() + TAG_LEN * layers@.len() <= MAX_SEAL_LEN,
    ensures
        r matches Err(e) ==> e == CryptoError::Seal,
        layers@.len() == 0 ==> r is Ok,
        r matches Ok(t) ==> {
            &&& t.1@.len() == layers@.len()
            &&& t.2@.len() == layers@.len()
            &&& forall|i: int|
                0 <= i < layers@.len() ==> #[trigger] t.1.deep_view()[i].len() == NONCE_LEN
                    && t.2.deep_view()[i].len() == KEY_LEN
            &&& t.0@ == chain_seal(layers@, t.2.deep_view(), t.1.deep_view(), data@)
            &&& chain_open(layers@, t.2.deep_view(), t.1.deep_view(), t.0@) == Some(data@)
            &&& t.0@.len() == data@.len() + TAG_LEN * layers@.len()
        },
{
    let n = layers.len();
    let mut current = crate::wire::copy_range(data, 0, data.len());
    let mut nonces: Vec<Vec<u8>> = Vec::new();
    let mut keys: Vec<Vec<u8>> = Vec::new();
    proof {
        assert(current@ =~= data@);
        assert(layers@.take(0int) =~= Seq::<EncryptionLayer>::empty());
        assert(nonces.deep_view() =~= Seq::<Seq<u8>>::empty());
        assert(keys.deep_view() =~= Seq::<Seq<u8>>::empty());
    }
    let mut i: usize = 0;
    while i < n
        invariant
            i <= n,
            n == layers@.len(),
            data@.len() + TAG_LEN * n <= MAX_SEAL_LEN,
            nonces@.len() == i,
            keys@.len() == i,
            forall|j: int|
                0 <= j < i ==> #[trigger] nonces.deep_view()[j].len() == NONCE_LEN
                    && keys.deep_view()[j].len() == KEY_LEN,
            current@ == chain_seal(layers@.take(i as int), keys.deep_view(), nonces.deep_view(), data@),
            chain_open(layers@.take(i as int), keys.deep_view(), nonces.deep_view(), current@)
                == Some(data@),
            current@.len() == data@.len() + TAG_LEN * i,
        decreases n - i,
    {
        let key = match random_bytes(KEY_LEN) {
            Ok(k) => k,
            Err(_) => return Err(CryptoError::Seal),
        };
        let nonce = match random_bytes(NONCE_LEN) {
            Ok(v) => v,
            Err(_) => return Err(CryptoError::Seal),
        };
        proof {
            assert(TAG_LEN * (i as int) <= TAG_LEN * (n as int)) by (nonlinear_arith)
                requires
                    i <= n,
            ;
        }
        let suite = layers[i];
        let next = seal_with_suite(suite, &key, &nonce, &current);
        let ghost prev_keys = keys.deep_view();
        let ghost prev_nonces = nonces.deep_view();
        keys.push(key);
        nonces.push(nonce);
        proof {
            assert(TAG_LEN * ((i as int) + 1) == TAG_LEN * (i as int) + TAG_LEN)
                by (nonlinear_arith);
            assert(keys@[i as int].deep_view() == keys@[i as int]@);
            assert(nonces@[i as int].deep_view() == nonces@[i as int]@);
            assert(keys.deep_view() =~= prev_keys.push(keys@[i as int]@));
            assert(nonces.deep_view() =~= prev_nonces.push(nonces@[i as int]@));
            let t1 = layers@.take(i as int + 1);
            assert(t1.drop_last() =~= layers@.take(i as int));
            assert(t1.last() == layers@[i as int]);
            assert(keys.deep_view().drop_last() =~= prev_keys);
            assert(nonces.deep_view().drop_last() =~= prev_nonces);
        }
        current = next;
        i = i + 1;
    }
    proof {
        assert(layers@.take(n as int) =~= layers@);
    }
    Ok((current, nonces, keys))
}

/// Opens one layer of the chain with the given suite, key and nonce: fails
/// with a `Seal` error exactly when the key or nonce has the wrong size or
/// the suite's tag does not verify; an input shorter than a tag always
/// fails.
pub fn decrypt_layer(
    data: &Vec<u8>,
    nonce: &Vec<u8>,
    key: &Vec<u8>,
    layer: EncryptionLayer,
) -> (r: Result<Vec<u8>, CryptoError>)
    ensures
        r is Ok <==> (key@.len() == KEY_LEN && nonce@.len() == NONCE_LEN && suite_open_bytes(
            layer,
            key@,
            nonce@,
            data@,
        ) is Some),
        r matches Ok(p) ==> suite_open_bytes(layer, key@, nonce@, data@) == Some(p@),
        data@.len() < TAG_LEN ==> r is Err,
        r matches Err(e) ==> e == CryptoError::Seal,
{
    if nonce.len() != NONCE_LEN || key.len() != KEY_LEN {
        return Err(CryptoError::Seal);
    }
    let opened = match layer {
        EncryptionLayer::ChaCha20Poly1305 => chacha_open(key, nonce, data),
        EncryptionLayer::AesGcm => aes_gcm_open(key, nonce, data),
    };
    match opened {
        Ok(p) => Ok(p),
        Err(_) => Err(CryptoError::Seal),
    }
}

/// Builds an onion packet: `layer_count` suites drawn at random, a route of
/// 3 to 6 hops drawn from `peer_ids` (empty if there are no peers), and the
/// data sealed under every layer with fresh keys and nonces, all recorded in
/// the packet so the peeling party can undo the chain.
pub fn create_onion_packet(data: &Vec<u8>, peer_ids: &Vec<String>, layer_count: usize) -> (r:
    Result<EncryptedPacket, CryptoError>)
    requires
        data@.len() + TAG_LEN * layer_count <= MAX_SEAL_LEN,
    ensures
        r matches Err(e) ==> e == CryptoError::Seal,
        layer_count == 0 ==> r is Ok,
        r matches Ok(p) ==> {
            &&& p.layers@.len() == layer_count
            &&& p.nonces@.len() == layer_count
            &&& p.keys@.len() == layer_count
            &&& p.data@.len() == data@.len() + TAG_LEN * layer_count
            &&& p.data@ == chain_seal(p.layers@, p.keys.deep_view(), p.nonces.deep_view(), data@)
            &&& chain_open(p.layers@, p.keys.deep_view(), p.nonces.deep_view(), p.data@) == Some(
                data@,
            )
            &&& peer_ids@.len() == 0 ==> p.route@.len() == 0
            &&& peer_ids@.len() > 0 ==> 3 <= p.route@.len() <= 6
            &&& forall|i: int| 0 <= i < p.route@.len() ==> peer_ids@.contains(#[trigger] p.route@[i])
        },
{
    let mut layers: Vec<EncryptionLayer> = Vec::new();
    let mut i: usize = 0;
    while i < layer_count
        invariant
            i <= layer_count,
            layers@.len() == i,
        decreases layer_count - i,
    {
        let suite = if rand_below(2) == 0 {
            EncryptionLayer::ChaCha20Poly1305
        } else {
            EncryptionLayer::AesGcm
        };
        layers.push(suite);
        i = i + 1;
    }
    let route_length = 3 + rand_below(4) as usize;
    let route = generate_random_route(peer_ids, route_length);
    let (encrypted, nonces, keys) = match multi_layer_encrypt(data, &layers) {
        Ok(t) => t,
        Err(e) => return Err(e),
    };
    Ok(EncryptedPacket { data: encrypted, nonces, keys, layers, route })
}

} // verus!
