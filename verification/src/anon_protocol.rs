//! Anonymous message records: the canonical tag-length-value wire format,
//! ephemeral signing identities, and authenticated sealing of encoded
//! messages under a fresh per-call key.
//!
//! A record carries six fields in fixed tag order (1 = type, 2 = timestamp,
//! 3 = sender id, 4 = payload, 5 = signature, 6 = hop count); each field is
//! one tag byte, a four-byte big-endian length and the value bytes. Decoders
//! skip records with unknown tags.

use vstd::prelude::*;
use crate::CryptoError;
use crate::primitives::{
    KEY_LEN, MAX_SEAL_LEN, NONCE_LEN, TAG_LEN, chacha_open, chacha_open_bytes, chacha_seal,
    chacha_seal_bytes, ed25519_generate_pkcs8, ed25519_pkcs8_well_formed, ed25519_sign,
    ed25519_signature, hex_bytes_of, hex_encode, now_seconds, random_bytes,
};
use crate::wire::{
    copy_range, push_all, push_u32_be, push_u64_be, read_u32_be, read_u64_be,
    spec_u32_from_be_bytes, spec_u32_to_be_bytes, spec_u64_from_be_bytes, spec_u64_to_be_bytes,
    lemma_u32_be_round_trip, lemma_u64_be_round_trip,
};

verus! {

/// The kind of an anonymous message.
#[derive(Clone, Copy, Debug, PartialEq, Eq, Structural)]
pub enum MessageType {
    Text,
    Binary,
    Command,
    Handshake,
}

impl MessageType {
    /// The wire value of each kind.
    pub open spec fn as_i32(self) -> i32 {
        match self {
            MessageType::Text => 0,
            MessageType::Binary => 1,
            MessageType::Command => 2,
            MessageType::Handshake => 3,
        }
    }

    /// The kind a wire value stands for, `None` outside the four known ones.
    pub open spec fn spec_from_i32(value: i32) -> Option<MessageType> {
        if value == 0 {
            Some(MessageType::Text)
        } else if value == 1 {
            Some(MessageType::Binary)
        } else if value == 2 {
            Some(MessageType::Command)
        } else if value == 3 {
            Some(MessageType::Handshake)
        } else {
            None
        }
    }

    /// Converts a wire value back into a kind.
    pub fn from_i32(value: i32) -> (r: Option<MessageType>)
        ensures
            r == MessageType::spec_from_i32(value),
    {
        match value {
            0 => Some(MessageType::Text),
            1 => Some(MessageType::Binary),
            2 => Some(MessageType::Command),
            3 => Some(MessageType::Handshake),
            _ => None,
        }
    }

    /// The wire value of this kind.
    pub fn to_i32(&self) -> (r: i32)
        ensures
            r == self.as_i32(),
    {
        match self {
            MessageType::Text => 0,
            MessageType::Binary => 1,
            MessageType::Command => 2,
            MessageType::Handshake => 3,
        }
    }

    /// The default kind.
    pub fn default() -> (r: Self)
        ensures
            r == MessageType::Text,
    {
        MessageType::Text
    }
}

/// The mathematical value of an anonymous message record.
#[verifier::ext_equal]
pub ghost struct MessageModel {
    pub msg_type: i32,
    pub timestamp: u64,
    pub temp_id: Seq<u8>,
    pub payload: Seq<u8>,
    pub signature: Seq<u8>,
    pub hop_count: u32,
}

/// An anonymous message record. Immutable once signed; the signature covers
/// every field but itself.
#[derive(Clone, Debug)]
pub struct AnonMessage {
    pub msg_type: i32,
    pub timestamp: u64,
    pub temp_id: Vec<u8>,
    pub payload: Vec<u8>,
    pub signature: Vec<u8>,
    pub hop_count: u32,
}

impl View for AnonMessage {
    type V = MessageModel;

    open spec fn view(&self) -> MessageModel {
        MessageModel {
            msg_type: self.msg_type,
            timestamp: self.timestamp,
            temp_id: self.temp_id@,
            payload: self.payload@,
            signature: self.signature@,
            hop_count: self.hop_count,
        }
    }
}

impl PartialEq for AnonMessage {
    fn eq(&self, other: &Self) -> (r: bool) {
        self.msg_type == other.msg_type && self.timestamp == other.timestamp
            && crate::wire::bytes_equal(&self.temp_id, &other.temp_id)
            && crate::wire::bytes_equal(&self.payload, &other.payload)
            && crate::wire::bytes_equal(&self.signature, &other.signature) && self.hop_count
            == other.hop_count
    }
}

impl vstd::std_specs::cmp::PartialEqSpecImpl for AnonMessage {
    open spec fn obeys_eq_spec() -> bool {
        true
    }

    open spec fn eq_spec(&self, other: &Self) -> bool {
        self@ == other@
    }
}

/// A message model all of whose variable-length fields fit the four-byte
/// length prefix of the wire format, with a non-negative type value.
pub open spec fn wf_model(m: MessageModel) -> bool {
    &&& 0 <= m.msg_type
    &&& m.temp_id.len() <= 0xFFFF_FFFF
    &&& m.payload.len() <= 0xFFFF_FFFF
    &&& m.signature.len() <= 0xFFFF_FFFF
}

/// One wire record: the tag byte, the four-byte big-endian length of the
/// value, then the value.
pub open spec fn spec_field(tag: u8, value: Seq<u8>) -> Seq<u8> {
    seq![tag] + spec_u32_to_be_bytes(value.len() as u32) + value
}

/// The canonical encoding of a message: its six fields in tag order.
pub open spec fn spec_encode(m: MessageModel) -> Seq<u8> {
    spec_field(1, spec_u32_to_be_bytes(m.msg_type as u32)) + (spec_field(
        2,
        spec_u64_to_be_bytes(m.timestamp),
    ) + (spec_field(3, m.temp_id) + (spec_field(4, m.payload) + (spec_field(5, m.signature)
        + spec_field(6, spec_u32_to_be_bytes(m.hop_count))))))
}

/// The message whose fields are all empty or zero; decoding starts from it.
pub open spec fn spec_empty_model() -> MessageModel {
    MessageModel {
        msg_type: 0,
        timestamp: 0,
        temp_id: Seq::empty(),
        payload: Seq::empty(),
        signature: Seq::empty(),
        hop_count: 0,
    }
}

/// Decodes the records of `b` into `acc`, one at a time: known tags replace
/// the matching field, unknown tags are skipped, and any truncated or
/// ill-sized record fails the whole decode.
pub open spec fn spec_decode_from(b: Seq<u8>, acc: MessageModel) -> Option<MessageModel>
    decreases b.len(),
{
    if b.len() == 0 {
        Some(acc)
    } else if b.len() < 5 {
        None
    } else {
        let l = spec_u32_from_be_bytes(b.subrange(1, 5)) as int;
        if b.len() < 5 + l {
            None
        } else {
            let v = b.subrange(5, 5 + l);
            let rest = b.subrange(5 + l, b.len() as int);
            let tag = b[0];
            if tag == 1 {
                if l == 4 && spec_u32_from_be_bytes(v) <= 0x7FFF_FFFF {
                    spec_decode_from(
                        rest,
                        MessageModel { msg_type: spec_u32_from_be_bytes(v) as i32, ..acc },
                    )
                } else {
                    None
                }
            } else if tag == 2 {
                if l == 8 {
                    spec_decode_from(
                        rest,
                        MessageModel { timestamp: spec_u64_from_be_bytes(v), ..acc },
                    )
                } else {
                    None
                }
            } else if tag == 3 {
                spec_decode_from(rest, MessageModel { temp_id: v, ..acc })
            } else if tag == 4 {
                spec_decode_from(rest, MessageModel { payload: v, ..acc })
            } else if tag == 5 {
                spec_decode_from(rest, MessageModel { signature: v, ..acc })
            } else if tag == 6 {
                if l == 4 {
                    spec_decode_from(
                        rest,
                        MessageModel { hop_count: spec_u32_from_be_bytes(v), ..acc },
                    )
                } else {
                    None
                }
            } else {
                spec_decode_from(rest, acc)
            }
        }
    }
}

/// The message a byte string decodes to, or `None` when it is malformed.
pub open spec fn spec_decode(b: Seq<u8>) -> Option<MessageModel> {
    spec_decode_from(b, spec_empty_model())
}

/// Splits one leading record off a byte string that starts with the encoding
/// of `(tag, value)`: the parsed pieces are exactly `tag`, `value.len()`,
/// `value` and the remainder.
proof fn lemma_record_parts(b: Seq<u8>, tag: u8, value: Seq<u8>, rest: Seq<u8>)
    requires
        value.len() <= 0xFFFF_FFFF,
        b == spec_field(tag, value) + rest,
    ensures
        b.len() == 5 + value.len() + rest.len(),
        b[0] == tag,
        spec_u32_from_be_bytes(b.subrange(1, 5)) == value.len(),
        b.subrange(5, 5 + value.len() as int) == value,
        b.subrange(5 + value.len() as int, b.len() as int) == rest,
{
    lemma_u32_be_round_trip(value.len() as u32);
    assert(b.subrange(1, 5) =~= spec_u32_to_be_bytes(value.len() as u32));
    assert(b.subrange(5, 5 + value.len() as int) =~= value);
    assert(b.subrange(5 + value.len() as int, b.len() as int) =~= rest);
}

/// The field of `acc` that a record with a known tag replaces.
pub open spec fn spec_field_update(acc: MessageModel, tag: u8, value: Seq<u8>) -> MessageModel {
    if tag == 1 {
        MessageModel { msg_type: spec_u32_from_be_bytes(value) as i32, ..acc }
    } else if tag == 2 {
        MessageModel { timestamp: spec_u64_from_be_bytes(value), ..acc }
    } else if tag == 3 {
        MessageModel { temp_id: value, ..acc }
    } else if tag == 4 {
        MessageModel { payload: value, ..acc }
    } else if tag == 5 {
        MessageModel { signature: value, ..acc }
    } else if tag == 6 {
        MessageModel { hop_count: spec_u32_from_be_bytes(value), ..acc }
    } else {
        acc
    }
}

/// Decoding a byte string that starts with one well-sized known-tag record
/// consumes the record and replaces the matching field.
proof fn lemma_decode_step(tag: u8, value: Seq<u8>, rest: Seq<u8>, acc: MessageModel)
    requires
        value.len() <= 0xFFFF_FFFF,
        1 <= tag <= 6,
        tag == 1 ==> value.len() == 4 && spec_u32_from_be_bytes(value) <= 0x7FFF_FFFF,
        tag == 2 ==> value.len() == 8,
        tag == 6 ==> value.len() == 4,
    ensures
        spec_decode_from(spec_field(tag, value) + rest, acc) == spec_decode_from(
            rest,
            spec_field_update(acc, tag, value),
        ),
{
    let b = spec_field(tag, value) + rest;
    lemma_record_parts(b, tag, value, rest);
}

/// Decoding the canonical encoding of a well-formed message recovers exactly
/// that message.
#[verifier::rlimit(100)]
#[verifier::spinoff_prover]
pub proof fn lemma_decode_encode(m: MessageModel)
    requires
        wf_model(m),
    ensures
        spec_decode(spec_encode(m)) == Some(m),
{
    let v1 = spec_u32_to_be_bytes(m.msg_type as u32);
    let v2 = spec_u64_to_be_bytes(m.timestamp);
    let v6 = spec_u32_to_be_bytes(m.hop_count);
    let f6 = spec_field(6, v6);
    let b6 = f6;
    let b5 = spec_field(5, m.signature) + b6;
    let b4 = spec_field(4, m.payload) + b5;
    let b3 = spec_field(3, m.temp_id) + b4;
    let b2 = spec_field(2, v2) + b3;
    let b1 = spec_field(1, v1) + b2;
    assert(b1 == spec_encode(m));

    let acc0 = spec_empty_model();
    let acc1 = spec_field_update(acc0, 1, v1);
    let acc2 = spec_field_update(acc1, 2, v2);
    let acc3 = spec_field_update(acc2, 3, m.temp_id);
    let acc4 = spec_field_update(acc3, 4, m.payload);
    let acc5 = spec_field_update(acc4, 5, m.signature);
    let acc6 = spec_field_update(acc5, 6, v6);

    lemma_u32_be_round_trip(m.msg_type as u32);
    lemma_u64_be_round_trip(m.timestamp);
    lemma_u32_be_round_trip(m.hop_count);

    lemma_decode_step(1, v1, b2, acc0);
    lemma_decode_step(2, v2, b3, acc1);
    lemma_decode_step(3, m.temp_id, b4, acc2);
    lemma_decode_step(4, m.payload, b5, acc3);
    lemma_decode_step(5, m.signature, b6, acc4);
    assert(b6 =~= f6 + Seq::<u8>::empty());
    lemma_decode_step(6, v6, Seq::<u8>::empty(), acc5);
    assert(spec_decode_from(Seq::<u8>::empty(), acc6) == Some(acc6));
    assert(acc6 =~= m);
}

impl AnonMessage {
    /// Builds a record stamped with the current time; the signature field is
    /// whatever the caller supplies (empty until signing).
    pub fn new(
        msg_type: MessageType,
        temp_id: &Vec<u8>,
        payload: Vec<u8>,
        signature: Vec<u8>,
        hop_count: u32,
    ) -> (r: Self)
        ensures
            r.msg_type == msg_type.as_i32(),
            r@.temp_id == temp_id@,
            r@.payload == payload@,
            r@.signature == signature@,
            r.hop_count == hop_count,
    {
        let timestamp = now_seconds();
        let id = copy_range(temp_id, 0, temp_id.len());
        proof {
            assert(id@ =~= temp_id@);
        }
        AnonMessage { msg_type: msg_type.to_i32(), timestamp, temp_id: id, payload, signature, hop_count }
    }

    /// The kind this record's wire value stands for.
    pub fn get_message_type(&self) -> (r: Option<MessageType>)
        ensures
            r == MessageType::spec_from_i32(self.msg_type),
    {
        MessageType::from_i32(self.msg_type)
    }

    /// Encodes the record into its canonical tag-length-value bytes.
    pub fn encode(&self) -> (r: Vec<u8>)
        requires
            wf_model(self@),
        ensures
            r@ == spec_encode(self@),
    {
        let mut out: Vec<u8> = Vec::new();
        out.push(1u8);
        push_u32_be(&mut out, 4);
        push_u32_be(&mut out, self.msg_type as u32);
        out.push(2u8);
        push_u32_be(&mut out, 8);
        push_u64_be(&mut out, self.timestamp);
        out.push(3u8);
        push_u32_be(&mut out, self.temp_id.len() as u32);
        push_all(&mut out, &self.temp_id);
        out.push(4u8);
        push_u32_be(&mut out, self.payload.len() as u32);
        push_all(&mut out, &self.payload);
        out.push(5u8);
        push_u32_be(&mut out, self.signature.len() as u32);
        push_all(&mut out, &self.signature);
        out.push(6u8);
        push_u32_be(&mut out, 4);
        push_u32_be(&mut out, self.hop_count);
        proof {
            assert(out@ =~= spec_encode(self@));
        }
        out
    }

    /// Decodes canonical bytes back into a record: fails with a `Codec` error
    /// exactly when the bytes are malformed (a truncated record, an ill-sized
    /// fixed-width field, or a type value above `i32::MAX`).
    pub fn decode(b: &Vec<u8>) -> (r: Result<Self, CryptoError>)
        ensures
            r matches Ok(m) ==> spec_decode(b@) == Some(m@),
            r is Ok <==> spec_decode(b@) is Some,
            r matches Err(e) ==> e == CryptoError::Codec,
    {
        let n = b.len();
        let mut off: usize = 0;
        let mut msg_type: i32 = 0;
        let mut timestamp: u64 = 0;
        let mut temp_id: Vec<u8> = Vec::new();
        let mut payload: Vec<u8> = Vec::new();
        let mut signature: Vec<u8> = Vec::new();
        let mut hop_count: u32 = 0;
        proof {
            assert(b@.subrange(0, n as int) =~= b@);
        }
        while off < n
            invariant
                off <= n,
                n == b@.len(),
                spec_decode(b@) == spec_decode_from(
                    b@.subrange(off as int, n as int),
                    MessageModel {
                        msg_type: msg_type,
                        timestamp: timestamp,
                        temp_id: temp_id@,
                        payload: payload@,
                        signature: signature@,
                        hop_count: hop_count,
                    },
                ),
            decreases n - off,
        {
            let ghost s = b@.subrange(off as int, n as int);
            let ghost acc = MessageModel {
                msg_type: msg_type,
                timestamp: timestamp,
                temp_id: temp_id@,
                payload: payload@,
                signature: signature@,
                hop_count: hop_count,
            };
            let rem = n - off;
            if rem < 5 {
                return Err(CryptoError::Codec);
            }
            let tag = b[off];
            let l32 = read_u32_be(b, off + 1);
            let l = l32 as usize;
            proof {
                assert(s.subrange(1, 5) =~= b@.subrange(off as int + 1, off as int + 5));
                assert(s[0] == tag);
                assert(s.len() == rem);
            }
            if l > rem - 5 {
                return Err(CryptoError::Codec);
            }
            let value_start = off + 5;
            let ghost v = s.subrange(5, 5 + l as int);
            let ghost rest = s.subrange(5 + l as int, s.len() as int);
            proof {
                assert(v =~= b@.subrange(value_start as int, value_start as int + l as int));
                assert(rest =~= b@.subrange(value_start as int + l as int, n as int));
            }
            if tag == 1 {
                if l != 4 {
                    return Err(CryptoError::Codec);
                }
                let raw = read_u32_be(b, value_start);
                proof {
                    assert(v =~= b@.subrange(value_start as int, value_start as int + 4));
                }
                if raw > 0x7FFF_FFFF {
                    return Err(CryptoError::Codec);
                }
                msg_type = raw as i32;
            } else if tag == 2 {
                if l != 8 {
                    return Err(CryptoError::Codec);
                }
                timestamp = read_u64_be(b, value_start);
                proof {
                    assert(v =~= b@.subrange(value_start as int, value_start as int + 8));
                }
            } else if tag == 3 {
                temp_id = copy_range(b, value_start, l);
            } else if tag == 4 {
                payload = copy_range(b, value_start, l);
            } else if tag == 5 {
                signature = copy_range(b, value_start, l);
            } else if tag == 6 {
                if l != 4 {
                    return Err(CryptoError::Codec);
                }
                hop_count = read_u32_be(b, value_start);
                proof {
                    assert(v =~= b@.subrange(value_start as int, value_start as int + 4));
                }
            }
            off = value_start + l;
        }
        proof {
            assert(b@.subrange(n as int, n as int) =~= Seq::<u8>::empty());
        }
        Ok(
            AnonMessage {
                msg_type,
                timestamp,
                temp_id,
                payload,
                signature,
                hop_count,
            },
        )
    }
}

/// The sum of two times in seconds, clamped to the largest representable
/// value.
pub open spec fn spec_add_sat64(a: u64, b: u64) -> u64 {
    if a + b <= u64::MAX {
        (a + b) as u64
    } else {
        u64::MAX
    }
}

/// Adds two times in seconds, clamping at the largest representable value.
pub fn add_sat64(a: u64, b: u64) -> (r: u64)
    ensures
        r == spec_add_sat64(a, b),
{
    if a <= u64::MAX - b {
        a + b
    } else {
        u64::MAX
    }
}

/// A short-lived signing identity: a random hex-rendered 16-byte token, an
/// Ed25519 keypair, and the window in which it is valid. Never persisted and
/// never reused once replaced.
pub struct TemporaryIdentity {
    id: Vec<u8>,
    keypair_pkcs8: Vec<u8>,
    created_at: u64,
    valid_until: u64,
}

impl TemporaryIdentity {
    #[verifier::type_invariant]
    spec fn inv(self) -> bool {
        ed25519_pkcs8_well_formed(self.keypair_pkcs8@) && self.id@.len() == 32
    }

    /// The identity's token: 32 lowercase hex digits, as ASCII bytes.
    pub closed spec fn id_model(self) -> Seq<u8> {
        self.id@
    }

    /// The identity's keypair, as the PKCS#8 bytes that name its signatures.
    pub closed spec fn key_model(self) -> Seq<u8> {
        self.keypair_pkcs8@
    }

    /// The second at which the identity was minted.
    pub closed spec fn created_at_model(self) -> u64 {
        self.created_at
    }

    /// The last second at which the identity is valid.
    pub closed spec fn valid_until_model(self) -> u64 {
        self.valid_until
    }

    /// Mints a fresh identity at time `now`, valid for `valid_duration`
    /// seconds: a fresh keypair, and a token that is the lowercase hex
    /// rendering of 16 fresh random bytes.
    pub fn new_at(now: u64, valid_duration: u64) -> (r: Result<Self, CryptoError>)
        ensures
            r matches Ok(id) ==> {
                &&& id.created_at_model() == now
                &&& id.valid_until_model() == spec_add_sat64(now, valid_duration)
                &&& id.id_model().len() == 32
                &&& exists|raw: Seq<u8>| raw.len() == 16 && id.id_model() == hex_bytes_of(raw)
            },
            r matches Err(e) ==> e == CryptoError::Identity,
    {
        let pkcs8 = match ed25519_generate_pkcs8() {
            Ok(d) => d,
            Err(_) => return Err(CryptoError::Identity),
        };
        let id_bytes = match random_bytes(16) {
            Ok(v) => v,
            Err(_) => return Err(CryptoError::Identity),
        };
        let id = hex_encode(&id_bytes);
        proof {
            assert(id_bytes@.len() == 16 && id@ == hex_bytes_of(id_bytes@));
        }
        let valid_until = add_sat64(now, valid_duration);
        Ok(TemporaryIdentity { id, keypair_pkcs8: pkcs8, created_at: now, valid_until })
    }

    /// Mints a fresh identity at the current time, valid for `valid_duration`
    /// seconds.
    pub fn new(valid_duration: u64) -> (r: Result<Self, CryptoError>)
        ensures
            r matches Ok(id) ==> {
                &&& id.valid_until_model() == spec_add_sat64(
                    id.created_at_model(),
                    valid_duration,
                )
                &&& id.id_model().len() == 32
                &&& exists|raw: Seq<u8>| raw.len() == 16 && id.id_model() == hex_bytes_of(raw)
            },
            r matches Err(e) ==> e == CryptoError::Identity,
    {
        let now = now_seconds();
        Self::new_at(now, valid_duration)
    }

    /// Whether the identity is valid at time `now`: expiry is the only
    /// invalidation path.
    pub fn is_valid_at(&self, now: u64) -> (r: bool)
        ensures
            r == (now <= self.valid_until_model()),
    {
        now <= self.valid_until
    }

    /// Whether the identity is valid at the current time.
    pub fn is_valid(&self) -> bool {
        let now = now_seconds();
        self.is_valid_at(now)
    }

    /// Signs a message with the identity's keypair: a deterministic function
    /// of the keypair and the message.
    pub fn sign(&self, message: &Vec<u8>) -> (r: Vec<u8>)
        ensures
            r@ == ed25519_signature(self.key_model(), message@),
            r@.len() == 64,
    {
        proof {
            use_type_invariant(&*self);
        }
        ed25519_sign(&self.keypair_pkcs8, message)
    }

    /// The identity's token bytes.
    pub fn id(&self) -> (r: &Vec<u8>)
        ensures
            r@ == self.id_model(),
    {
        &self.id
    }

    /// The second at which the identity was minted.
    pub fn created_at(&self) -> (r: u64)
        ensures
            r == self.created_at_model(),
    {
        self.created_at
    }

    /// The last second at which the identity is valid.
    pub fn valid_until(&self) -> (r: u64)
        ensures
            r == self.valid_until_model(),
    {
        self.valid_until
    }
}

/// The canonical bytes a message's signature covers: type, timestamp, sender
/// id, payload and hop count in that order, numeric fields big-endian; the
/// signature itself is excluded.
pub open spec fn spec_signing_bytes(m: MessageModel) -> Seq<u8> {
    spec_u32_to_be_bytes(m.msg_type as u32) + spec_u64_to_be_bytes(m.timestamp) + m.temp_id
        + m.payload + spec_u32_to_be_bytes(m.hop_count)
}

/// The message recovered by opening a sealed packet with `key` and decoding
/// the plaintext; `None` when the key has the wrong size, the packet is
/// shorter than a nonce and a tag together, the tag fails, or the plaintext
/// is malformed.
pub open spec fn spec_open_sealed(bytes: Seq<u8>, key: Seq<u8>) -> Option<MessageModel> {
    if key.len() == KEY_LEN && bytes.len() >= NONCE_LEN + TAG_LEN {
        match chacha_open_bytes(
            key,
            bytes.subrange(0, NONCE_LEN as int),
            bytes.subrange(NONCE_LEN as int, bytes.len() as int),
        ) {
            Some(pt) => spec_decode(pt),
            None => None,
        }
    } else {
        None
    }
}

/// Whether a protocol handle holds an identity that is still valid at `now`.
pub open spec fn spec_identity_valid(p: AnonymousProtocol, now: u64) -> bool {
    match p.identity_model() {
        Some(o) => now <= o.valid_until_model(),
        None => false,
    }
}

/// The message-building side of the anonymity layer: owns the active
/// identity, rotates it on expiry, and seals encoded messages.
pub struct AnonymousProtocol {
    current_identity: Option<TemporaryIdentity>,
    identity_duration: u64,
}

impl AnonymousProtocol {
    /// The active identity, if one has been minted and not yet replaced.
    pub closed spec fn identity_model(self) -> Option<TemporaryIdentity> {
        self.current_identity
    }

    /// The configured lifetime of each identity, in seconds.
    pub closed spec fn duration_model(self) -> u64 {
        self.identity_duration
    }

    /// Creates a handle with no identity yet; the first use mints one.
    pub fn new(identity_duration: u64) -> (r: Self)
        ensures
            r.identity_model() is None,
            r.duration_model() == identity_duration,
    {
        AnonymousProtocol { current_identity: None, identity_duration }
    }

    /// Returns the active identity if it is valid at `now`; otherwise mints a
    /// fresh one valid for the configured duration and makes it active. At
    /// most one identity is created per expiry, and while a valid identity is
    /// held no generation runs, so success is owed.
    pub fn get_identity_at(&mut self, now: u64) -> (r: Result<&TemporaryIdentity, CryptoError>)
        ensures
            final(self).duration_model() == old(self).duration_model(),
            spec_identity_valid(*old(self), now) ==> r is Ok,
            r matches Err(e) ==> e == CryptoError::Identity && *final(self) == *old(self),
            r matches Ok(id) ==> {
                &&& final(self).identity_model() == Some(*id)
                &&& now <= id.valid_until_model()
                &&& if spec_identity_valid(*old(self), now) {
                    *final(self) == *old(self)
                } else {
                    id.created_at_model() == now && id.valid_until_model() == spec_add_sat64(
                        now,
                        old(self).duration_model(),
                    )
                }
            },
    {
        let should_create = match &self.current_identity {
            Some(identity) => !identity.is_valid_at(now),
            None => true,
        };
        if should_create {
            let fresh = match TemporaryIdentity::new_at(now, self.identity_duration) {
                Ok(i) => i,
                Err(e) => return Err(e),
            };
            self.current_identity = Some(fresh);
        }
        match &self.current_identity {
            Some(identity) => Ok(identity),
            None => Err(CryptoError::Identity),
        }
    }

    /// Returns the active identity at the current time, minting one if none
    /// is valid.
    pub fn get_identity(&mut self) -> (r: Result<&TemporaryIdentity, CryptoError>)
        ensures
            final(self).duration_model() == old(self).duration_model(),
            r matches Err(e) ==> e == CryptoError::Identity && *final(self) == *old(self),
            r matches Ok(id) ==> final(self).identity_model() == Some(*id),
    {
        let now = now_seconds();
        self.get_identity_at(now)
    }

    /// Builds and signs a message at time `now` under the active identity
    /// (minting one if needed): the signature covers the canonical bytes of
    /// every field but itself. Encoding and signing are total, so with a
    /// valid identity held, success is owed.
    pub fn create_message_at(
        &mut self,
        now: u64,
        msg_type: MessageType,
        payload: &Vec<u8>,
        hop_count: u32,
    ) -> (r: Result<AnonMessage, CryptoError>)
        requires
            payload@.len() <= 0xFFFF_FFFF,
        ensures
            final(self).duration_model() == old(self).duration_model(),
            spec_identity_valid(*old(self), now) ==> r is Ok,
            r matches Err(e) ==> e == CryptoError::Identity,
            r matches Ok(m) ==> {
                &&& final(self).identity_model() matches Some(id) && m@.temp_id == id.id_model()
                    && m@.signature == ed25519_signature(id.key_model(), spec_signing_bytes(m@))
                &&& m@.msg_type == msg_type.as_i32()
                &&& m@.timestamp == now
                &&& m@.payload == payload@
                &&& m@.signature.len() == 64
                &&& m@.hop_count == hop_count
                &&& wf_model(m@)
            },
    {
        let duration = self.identity_duration;
        let identity = match self.get_identity_at(now) {
            Ok(i) => i,
            Err(e) => return Err(e),
        };
        let temp_id = copy_range(identity.id(), 0, identity.id().len());
        proof {
            use_type_invariant(&*identity);
            assert(temp_id@ =~= identity.id_model());
        }
        let the_payload = copy_range(payload, 0, payload.len());
        proof {
            assert(the_payload@ =~= payload@);
        }
        let mut message_data: Vec<u8> = Vec::new();
        push_u32_be(&mut message_data, msg_type.to_i32() as u32);
        push_u64_be(&mut message_data, now);
        push_all(&mut message_data, &temp_id);
        push_all(&mut message_data, &the_payload);
        push_u32_be(&mut message_data, hop_count);
        let signature = identity.sign(&message_data);
        let m = AnonMessage {
            msg_type: msg_type.to_i32(),
            timestamp: now,
            temp_id,
            payload: the_payload,
            signature,
            hop_count,
        };
        proof {
            assert(message_data@ =~= spec_signing_bytes(m@));
        }
        Ok(m)
    }

    /// Builds and signs a message stamped with the current time.
    pub fn create_message(
        &mut self,
        msg_type: MessageType,
        payload: &Vec<u8>,
        hop_count: u32,
    ) -> (r: Result<AnonMessage, CryptoError>)
        requires
            payload@.len() <= 0xFFFF_FFFF,
        ensures
            final(self).duration_model() == old(self).duration_model(),
            r matches Err(e) ==> e == CryptoError::Identity,
            r matches Ok(m) ==> {
                &&& final(self).identity_model() matches Some(id) && m@.temp_id == id.id_model()
                    && m@.signature == ed25519_signature(id.key_model(), spec_signing_bytes(m@))
                &&& m@.msg_type == msg_type.as_i32()
                &&& m@.payload == payload@
                &&& m@.hop_count == hop_count
                &&& wf_model(m@)
            },
    {
        let now = now_seconds();
        self.create_message_at(now, msg_type, payload, hop_count)
    }

    /// Seals a message under a fresh random 256-bit key and 96-bit nonce:
    /// the packet is the nonce followed by the ciphertext with its tag, and
    /// opening the packet with the returned key recovers the message.
    pub fn encrypt_message(&self, message: &AnonMessage) -> (r: Result<
        (Vec<u8>, Vec<u8>),
        CryptoError,
    >)
        requires
            wf_model(message@),
            message@.temp_id.len() + message@.payload.len() + message@.signature.len() + 46
                <= MAX_SEAL_LEN,
        ensures
            r matches Err(e) ==> e == CryptoError::Seal,
            r matches Ok(p) ==> {
                &&& p.1@.len() == KEY_LEN
                &&& p.0@.len() == spec_encode(message@).len() + NONCE_LEN + TAG_LEN
                &&& p.0@ == p.0@.subrange(0, NONCE_LEN as int) + chacha_seal_bytes(
                    p.1@,
                    p.0@.subrange(0, NONCE_LEN as int),
                    spec_encode(message@),
                )
                &&& spec_open_sealed(p.0@, p.1@) == Some(message@)
            },
    {
        let encoded = message.encode();
        let key = match random_bytes(KEY_LEN) {
            Ok(k) => k,
            Err(_) => return Err(CryptoError::Seal),
        };
        let nonce = match random_bytes(NONCE_LEN) {
            Ok(v) => v,
            Err(_) => return Err(CryptoError::Seal),
        };
        let sealed = chacha_seal(&key, &nonce, &encoded);
        let mut packet: Vec<u8> = Vec::new();
        push_all(&mut packet, &nonce);
        push_all(&mut packet, &sealed);
        proof {
            lemma_decode_encode(message@);
            assert(packet@.subrange(0, NONCE_LEN as int) =~= nonce@);
            assert(packet@.subrange(NONCE_LEN as int, packet@.len() as int) =~= sealed@);
        }
        Ok((packet, key))
    }

    /// Opens a sealed packet with the key that sealed it: fails with a `Seal`
    /// error on a wrong-sized key, a packet shorter than a nonce and a tag
    /// together, or a tag that does not verify, and with a `Codec` error when
    /// the recovered plaintext is malformed.
    pub fn decrypt_message(&self, encrypted: &Vec<u8>, key: &Vec<u8>) -> (r: Result<
        AnonMessage,
        CryptoError,
    >)
        ensures
            r matches Ok(m) ==> spec_open_sealed(encrypted@, key@) == Some(m@),
            r is Ok <==> spec_open_sealed(encrypted@, key@) is Some,
            encrypted@.len() < NONCE_LEN + TAG_LEN ==> r == Err::<AnonMessage, CryptoError>(
                CryptoError::Seal,
            ),
            r matches Err(e) ==> e == (if key@.len() != KEY_LEN || encrypted@.len() < NONCE_LEN
                + TAG_LEN || chacha_open_bytes(
                key@,
                encrypted@.subrange(0, NONCE_LEN as int),
                encrypted@.subrange(NONCE_LEN as int, encrypted@.len() as int),
            ) is None {
                CryptoError::Seal
            } else {
                CryptoError::Codec
            }),
    {
        if key.len() != KEY_LEN {
            return Err(CryptoError::Seal);
        }
        if encrypted.len() < NONCE_LEN + TAG_LEN {
            return Err(CryptoError::Seal);
        }
        let nonce = copy_range(encrypted, 0, NONCE_LEN);
        let ciphertext = copy_range(encrypted, NONCE_LEN, encrypted.len() - NONCE_LEN);
        proof {
            assert(nonce@ =~= encrypted@.subrange(0, NONCE_LEN as int));
            assert(ciphertext@ =~= encrypted@.subrange(NONCE_LEN as int, encrypted@.len() as int));
        }
        let plaintext = match chacha_open(key, &nonce, &ciphertext) {
            Ok(p) => p,
            Err(_) => return Err(CryptoError::Seal),
        };
        match AnonMessage::decode(&plaintext) {
            Ok(m) => Ok(m),
            Err(_) => Err(CryptoError::Codec),
        }
    }
}

} // verus!
