//! The boundary to the outside cryptographic and random primitives.
//!
//! Everything the library takes on trust stands here: a handful of wrappers
//! around ring, rand, hex and uuid, each with the contract that the wrapped
//! function's own source and documentation show, plus named results for the
//! two ciphers and the signature scheme, whose values no short specification
//! could state.

use vstd::prelude::*;

verus! {

/// Byte length of an AEAD key for either supported cipher.
pub const KEY_LEN: usize = 32;

/// Byte length of an AEAD nonce for either supported cipher.
pub const NONCE_LEN: usize = 12;

/// Byte length of an AEAD authentication tag for either supported cipher.
pub const TAG_LEN: usize = 16;

/// Largest plaintext the sealing wrappers accept; comfortably below the
/// per-call input limit of both ciphers.
pub const MAX_SEAL_LEN: usize = 0xFFFF_FFFF;

/// The ciphertext-with-tag that ChaCha20-Poly1305 produces from a key, a
/// nonce and a plaintext (empty associated data).
pub uninterp spec fn chacha_seal_bytes(key: Seq<u8>, nonce: Seq<u8>, data: Seq<u8>) -> Seq<u8>;

/// The plaintext that ChaCha20-Poly1305 opening recovers from a key, a nonce
/// and a ciphertext-with-tag, or `None` when authentication fails.
pub uninterp spec fn chacha_open_bytes(key: Seq<u8>, nonce: Seq<u8>, sealed: Seq<u8>) -> Option<
    Seq<u8>,
>;

/// The ciphertext-with-tag that AES-256-GCM produces from a key, a nonce and
/// a plaintext (empty associated data).
pub uninterp spec fn aes_gcm_seal_bytes(key: Seq<u8>, nonce: Seq<u8>, data: Seq<u8>) -> Seq<u8>;

/// The plaintext that AES-256-GCM opening recovers from a key, a nonce and a
/// ciphertext-with-tag, or `None` when authentication fails.
pub uninterp spec fn aes_gcm_open_bytes(key: Seq<u8>, nonce: Seq<u8>, sealed: Seq<u8>) -> Option<
    Seq<u8>,
>;

/// The Ed25519 signature (RFC 8032) over a message, under the keypair held in
/// a PKCS#8 v2 document; deterministic in the document and the message.
pub uninterp spec fn ed25519_signature(pkcs8: Seq<u8>, msg: Seq<u8>) -> Seq<u8>;

/// Whether a byte string is a PKCS#8 v2 Ed25519 document that ring's
/// `Ed25519KeyPair::from_pkcs8` accepts.
pub uninterp spec fn ed25519_pkcs8_well_formed(pkcs8: Seq<u8>) -> bool;

/// Relies on ring's `SystemRandom::fill`: on success the buffer holds `n`
/// fresh random bytes; it fails only when the system's random source does.
#[verifier::external_body]
pub(crate) fn random_bytes(n: usize) -> (r: Result<Vec<u8>, ()>)
    ensures
        r matches Ok(b) ==> b@.len() == n,
{
    let mut buf = vec![0u8; n];
    let rng = ring::rand::SystemRandom::new();
    match ring::rand::SecureRandom::fill(&rng, &mut buf) {
        Ok(()) => Ok(buf),
        Err(_) => Err(()),
    }
}

/// Relies on ring's `LessSafeKey::seal_in_place_append_tag` with
/// `CHACHA20_POLY1305`: deterministic in key, nonce and plaintext, it appends
/// a 16-byte tag, succeeds on every input below the cipher's length limit,
/// and opening the result with the same key and nonce returns the plaintext.
#[verifier::external_body]
pub(crate) fn chacha_seal(key: &Vec<u8>, nonce: &Vec<u8>, data: &Vec<u8>) -> (r: Vec<u8>)
    requires
        key@.len() == KEY_LEN,
        nonce@.len() == NONCE_LEN,
        data@.len() <= MAX_SEAL_LEN,
    ensures
        r@ == chacha_seal_bytes(key@, nonce@, data@),
        r@.len() == data@.len() + TAG_LEN,
        chacha_open_bytes(key@, nonce@, r@) == Some(data@),
{
    let unbound = ring::aead::UnboundKey::new(&ring::aead::CHACHA20_POLY1305, key).unwrap();
    let sealing_key = ring::aead::LessSafeKey::new(unbound);
    let mut nonce_arr = [0u8; 12];
    nonce_arr.copy_from_slice(nonce);
    let nonce_obj = ring::aead::Nonce::assume_unique_for_key(nonce_arr);
    let mut in_out = data.clone();
    sealing_key.seal_in_place_append_tag(nonce_obj, ring::aead::Aad::empty(), &mut in_out).unwrap();
    in_out
}

/// Relies on ring's `LessSafeKey::open_in_place` with `CHACHA20_POLY1305`:
/// deterministic in key, nonce and input, it returns the plaintext exactly
/// when the tag authenticates, and always fails on input shorter than a tag.
#[verifier::external_body]
pub(crate) fn chacha_open(key: &Vec<u8>, nonce: &Vec<u8>, sealed: &Vec<u8>) -> (r: Result<
    Vec<u8>,
    (),
>)
    requires
        key@.len() == KEY_LEN,
        nonce@.len() == NONCE_LEN,
    ensures
        match r {
            Ok(p) => chacha_open_bytes(key@, nonce@, sealed@) == Some(p@) && p@.len() + TAG_LEN
                == sealed@.len(),
            Err(_) => chacha_open_bytes(key@, nonce@, sealed@) is None,
        },
        sealed@.len() < TAG_LEN ==> r is Err,
{
    let unbound = ring::aead::UnboundKey::new(&ring::aead::CHACHA20_POLY1305, key).unwrap();
    let opening_key = ring::aead::LessSafeKey::new(unbound);
    let mut nonce_arr = [0u8; 12];
    nonce_arr.copy_from_slice(nonce);
    let nonce_obj = ring::aead::Nonce::assume_unique_for_key(nonce_arr);
    let mut in_out = sealed.clone();
    match opening_key.open_in_place(nonce_obj, ring::aead::Aad::empty(), &mut in_out) {
        Ok(plain) => Ok(plain.to_vec()),
        Err(_) => Err(()),
    }
}

/// Relies on ring's `LessSafeKey::seal_in_place_append_tag` with
/// `AES_256_GCM`: the same shape of contract as the ChaCha20-Poly1305 seal.
#[verifier::external_body]
pub(crate) fn aes_gcm_seal(key: &Vec<u8>, nonce: &Vec<u8>, data: &Vec<u8>) -> (r: Vec<u8>)
    requires
        key@.len() == KEY_LEN,
        nonce@.len() == NONCE_LEN,
        data@.len() <= MAX_SEAL_LEN,
    ensures
        r@ == aes_gcm_seal_bytes(key@, nonce@, data@),
        r@.len() == data@.len() + TAG_LEN,
        aes_gcm_open_bytes(key@, nonce@, r@) == Some(data@),
{
    let unbound = ring::aead::UnboundKey::new(&ring::aead::AES_256_GCM, key).unwrap();
    let sealing_key = ring::aead::LessSafeKey::new(unbound);
    let mut nonce_arr = [0u8; 12];
    nonce_arr.copy_from_slice(nonce);
    let nonce_obj = ring::aead::Nonce::assume_unique_for_key(nonce_arr);
    let mut in_out = data.clone();
    sealing_key.seal_in_place_append_tag(nonce_obj, ring::aead::Aad::empty(), &mut in_out).unwrap();
    in_out
}

/// Relies on ring's `LessSafeKey::open_in_place` with `AES_256_GCM`: the same
/// shape of contract as the ChaCha20-Poly1305 open.
#[verifier::external_body]
pub(crate) fn aes_gcm_open(key: &Vec<u8>, nonce: &Vec<u8>, sealed: &Vec<u8>) -> (r: Result<
    Vec<u8>,
    (),
>)
    requires
        key@.len() == KEY_LEN,
        nonce@.len() == NONCE_LEN,
    ensures
        match r {
            Ok(p) => aes_gcm_open_bytes(key@, nonce@, sealed@) == Some(p@) && p@.len() + TAG_LEN
                == sealed@.len(),
            Err(_) => aes_gcm_open_bytes(key@, nonce@, sealed@) is None,
        },
        sealed@.len() < TAG_LEN ==> r is Err,
{
    let unbound = ring::aead::UnboundKey::new(&ring::aead::AES_256_GCM, key).unwrap();
    let opening_key = ring::aead::LessSafeKey::new(unbound);
    let mut nonce_arr = [0u8; 12];
    nonce_arr.copy_from_slice(nonce);
    let nonce_obj = ring::aead::Nonce::assume_unique_for_key(nonce_arr);
    let mut in_out = sealed.clone();
    match opening_key.open_in_place(nonce_obj, ring::aead::Aad::empty(), &mut in_out) {
        Ok(plain) => Ok(plain.to_vec()),
        Err(_) => Err(()),
    }
}

/// Relies on ring's `Ed25519KeyPair::generate_pkcs8`: a fresh keypair,
/// serialized as a PKCS#8 v2 document that `from_pkcs8` accepts back.
#[verifier::external_body]
pub(crate) fn ed25519_generate_pkcs8() -> (r: Result<Vec<u8>, ()>)
    ensures
        r matches Ok(doc) ==> ed25519_pkcs8_well_formed(doc@),
{
    let rng = ring::rand::SystemRandom::new();
    match ring::signature::Ed25519KeyPair::generate_pkcs8(&rng) {
        Ok(doc) => Ok(doc.as_ref().to_vec()),
        Err(_) => Err(()),
    }
}

/// Relies on ring's `Ed25519KeyPair::from_pkcs8` and `Ed25519KeyPair::sign`:
/// parsing succeeds exactly on well-formed documents, and the Ed25519
/// signature is a 64-byte deterministic function of the key and the message.
#[verifier::external_body]
pub(crate) fn ed25519_sign(pkcs8: &Vec<u8>, msg: &Vec<u8>) -> (r: Vec<u8>)
    requires
        ed25519_pkcs8_well_formed(pkcs8@),
    ensures
        r@ == ed25519_signature(pkcs8@, msg@),
        r@.len() == 64,
{
    let keypair = ring::signature::Ed25519KeyPair::from_pkcs8(pkcs8).unwrap();
    keypair.sign(msg).as_ref().to_vec()
}

/// One lowercase hexadecimal digit, as its ASCII byte, for a value below 16.
pub open spec fn hex_digit(v: int) -> u8 {
    if v < 10 {
        (0x30 + v) as u8
    } else {
        (0x57 + v) as u8
    }
}

/// The lowercase hexadecimal rendering of a byte string: two digits per byte,
/// high nibble first.
pub open spec fn hex_bytes_of(b: Seq<u8>) -> Seq<u8> {
    Seq::new(
        b.len() * 2,
        |i: int|
            if i % 2 == 0 {
                hex_digit(b[i / 2] as int / 16)
            } else {
                hex_digit(b[i / 2] as int % 16)
            },
    )
}

/// Relies on hex's `encode`: lowercase hexadecimal, two digits per byte, high
/// nibble first.
#[verifier::external_body]
pub(crate) fn hex_encode(b: &Vec<u8>) -> (r: Vec<u8>)
    ensures
        r@ == hex_bytes_of(b@),
{
    hex::encode(b).into_bytes()
}

/// Relies on rand's `Rng::gen_range` over `0..n` with `ThreadRng`, a CSPRNG:
/// a value below `n`; the call panics only on an empty range.
#[verifier::external_body]
pub(crate) fn rand_below(n: u64) -> (r: u64)
    requires
        n > 0,
    ensures
        r < n,
{
    rand::Rng::gen_range(&mut rand::thread_rng(), 0..n)
}

/// Relies on uuid's `Uuid::new_v4` and its display form: a random version-4
/// UUID rendered as the 36-character hyphenated string.
#[verifier::external_body]
pub(crate) fn uuid_v4_string() -> (r: String)
    ensures
        r@.len() == 36,
{
    uuid::Uuid::new_v4().to_string()
}

/// Relies on `std::time::SystemTime::now` and `duration_since(UNIX_EPOCH)`:
/// the number of whole seconds since the epoch, 0 if the clock reads earlier.
#[verifier::external_body]
pub(crate) fn now_seconds() -> u64 {
    std::time::SystemTime::now()
        .duration_since(std::time::UNIX_EPOCH)
        .unwrap_or_default()
        .as_secs()
}

} // verus!
