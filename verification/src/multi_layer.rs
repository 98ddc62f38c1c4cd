//! Onion-style layered encryption: a fixed, ordered set of independent
//! ChaCha20-Poly1305 layers, applied innermost-first and peeled in reverse.
//!
//! Wrapping and peeling with the same ordered layer set are exact inverses;
//! peeling aborts at the first layer whose tag fails, exposing nothing.

use vstd::prelude::*;
use crate::CryptoError;
use crate::primitives::{
    KEY_LEN, MAX_SEAL_LEN, NONCE_LEN, TAG_LEN, chacha_open, chacha_open_bytes, chacha_seal,
    chacha_seal_bytes, random_bytes,
};
use crate::wire::{copy_range, push_all};

verus! {

/// One wrapping of a layer with key `key` and nonce `nonce` around `d`: the
/// nonce, then the ciphertext with its tag.
pub open spec fn layer_wrap(key: Seq<u8>, nonce: Seq<u8>, d: Seq<u8>) -> Seq<u8> {
    nonce + chacha_seal_bytes(key, nonce, d)
}

/// Peeling one wrapping: drops the leading nonce bytes and opens the rest
/// under the layer's own key and nonce; `None` when the input is shorter
/// than a nonce and a tag together, or the tag fails.
pub open spec fn layer_unwrap(key: Seq<u8>, nonce: Seq<u8>, d: Seq<u8>) -> Option<Seq<u8>> {
    if d.len() >= NONCE_LEN + TAG_LEN {
        chacha_open_bytes(key, nonce, d.subrange(NONCE_LEN as int, d.len() as int))
    } else {
        None
    }
}

/// The result of wrapping `d` under every layer of `layers` in order: layer 0
/// first, the last layer outermost.
pub open spec fn onion_wrap(layers: Seq<(Seq<u8>, Seq<u8>)>, d: Seq<u8>) -> Seq<u8>
    decreases layers.len(),
{
    if layers.len() == 0 {
        d
    } else {
        layer_wrap(layers.last().0, layers.last().1, onion_wrap(layers.drop_last(), d))
    }
}

/// The result of peeling every layer of `layers` in reverse order, outermost
/// first; `None` as soon as any layer fails.
pub open spec fn onion_unwrap(layers: Seq<(Seq<u8>, Seq<u8>)>, d: Seq<u8>) -> Option<Seq<u8>>
    decreases layers.len(),
{
    if layers.len() == 0 {
        Some(d)
    } else {
        match layer_unwrap(layers.last().0, layers.last().1, d) {
            Some(inner) => onion_unwrap(layers.drop_last(), inner),
            None => None,
        }
    }
}

/// One encryption layer: a 256-bit key and a 96-bit nonce, generated once and
/// fixed for the lifetime of the layer.
pub struct EncryptionLayer {
    key: Vec<u8>,
    nonce: Vec<u8>,
}

impl EncryptionLayer {
    #[verifier::type_invariant]
    spec fn inv(self) -> bool {
        self.key@.len() == KEY_LEN && self.nonce@.len() == NONCE_LEN
    }

    /// The layer's key, as the byte string the contracts speak of.
    pub closed spec fn key_model(self) -> Seq<u8> {
        self.key@
    }

    /// The layer's nonce, as the byte string the contracts speak of.
    pub closed spec fn nonce_model(self) -> Seq<u8> {
        self.nonce@
    }

    /// Creates a layer with a fresh random key and nonce.
    pub fn new() -> (r: Result<Self, CryptoError>)
        ensures
            r matches Ok(l) ==> l.key_model().len() == KEY_LEN && l.nonce_model().len()
                == NONCE_LEN,
            r matches Err(e) ==> e == CryptoError::Seal,
    {
        let key = match random_bytes(KEY_LEN) {
            Ok(k) => k,
            Err(_) => return Err(CryptoError::Seal),
        };
        let nonce = match random_bytes(NONCE_LEN) {
            Ok(v) => v,
            Err(_) => return Err(CryptoError::Seal),
        };
        Ok(EncryptionLayer { key, nonce })
    }

    /// Wraps `data` in this layer: the layer's nonce followed by the sealed
    /// bytes. The result always peels back to `data` under the same layer.
    pub fn encrypt(&self, data: &Vec<u8>) -> (r: Result<Vec<u8>, CryptoError>)
        requires
            data@.len() <= MAX_SEAL_LEN,
        ensures
            r is Ok,
            r matches Ok(c) ==> {
                &&& c@ == layer_wrap(self.key_model(), self.nonce_model(), data@)
                &&& c@.len() == data@.len() + NONCE_LEN + TAG_LEN
                &&& layer_unwrap(self.key_model(), self.nonce_model(), c@) == Some(data@)
            },
    {
        proof {
            use_type_invariant(&*self);
        }
        let sealed = chacha_seal(&self.key, &self.nonce, data);
        let mut out: Vec<u8> = Vec::new();
        push_all(&mut out, &self.nonce);
        push_all(&mut out, &sealed);
        proof {
            assert(out@.subrange(NONCE_LEN as int, out@.len() as int) =~= sealed@);
            assert(out@ =~= layer_wrap(self.key_model(), self.nonce_model(), data@));
        }
        Ok(out)
    }

    /// Peels this layer off `data`: fails with a `Seal` error exactly when
    /// the input is shorter than a nonce and a tag together, or the layer's
    /// tag does not verify.
    pub fn decrypt(&self, data: &Vec<u8>) -> (r: Result<Vec<u8>, CryptoError>)
        ensures
            r matches Ok(p) ==> layer_unwrap(self.key_model(), self.nonce_model(), data@) == Some(
                p@,
            ),
            r is Ok <==> layer_unwrap(self.key_model(), self.nonce_model(), data@) is Some,
            r matches Err(e) ==> e == CryptoError::Seal,
    {
        proof {
            use_type_invariant(&*self);
        }
        if data.len() < NONCE_LEN {
            return Err(CryptoError::Seal);
        }
        let ciphertext = copy_range(data, NONCE_LEN, data.len() - NONCE_LEN);
        match chacha_open(&self.key, &self.nonce, &ciphertext) {
            Ok(p) => Ok(p),
            Err(_) => Err(CryptoError::Seal),
        }
    }
}

/// A fixed ordered stack of encryption layers applied around arbitrary
/// payload bytes, one wrapping per layer.
pub struct MultiLayerEncryption {
    layers: Vec<EncryptionLayer>,
}

impl MultiLayerEncryption {
    /// The ordered `(key, nonce)` pairs of the stack, innermost first.
    pub closed spec fn models(self) -> Seq<(Seq<u8>, Seq<u8>)> {
        Seq::new(
            self.layers@.len(),
            |i: int| (self.layers@[i].key_model(), self.layers@[i].nonce_model()),
        )
    }

    /// Creates a stack of `layer_count` independent fresh layers. Only the
    /// random source can fail, so a stack of no layers always succeeds.
    pub fn new(layer_count: usize) -> (r: Result<Self, CryptoError>)
        ensures
            r matches Ok(m) ==> m.models().len() == layer_count,
            r matches Err(e) ==> e == CryptoError::Seal,
            layer_count == 0 ==> r is Ok,
    {
        let mut layers: Vec<EncryptionLayer> = Vec::new();
        let mut i: usize = 0;
        while i < layer_count
            invariant
                i <= layer_count,
                layers@.len() == i,
            decreases layer_count - i,
        {
            let layer = match EncryptionLayer::new() {
                Ok(l) => l,
                Err(e) => return Err(e),
            };
            layers.push(layer);
            i = i + 1;
        }
        Ok(MultiLayerEncryption { layers })
    }

    /// Wraps `data` under every layer in order, layer 0 first. The result
    /// always unwraps back to `data` under the same stack.
    pub fn encrypt(&self, data: &Vec<u8>) -> (r: Result<Vec<u8>, CryptoError>)
        requires
            data@.len() + (NONCE_LEN + TAG_LEN) * self.models().len() <= MAX_SEAL_LEN,
        ensures
            r is Ok,
            r matches Ok(c) ==> {
                &&& c@ == onion_wrap(self.models(), data@)
                &&& c@.len() == data@.len() + (NONCE_LEN + TAG_LEN) * self.models().len()
                &&& onion_unwrap(self.models(), c@) == Some(data@)
            },
    {
        let ghost ms = self.models();
        let n = self.layers.len();
        let mut current = copy_range(data, 0, data.len());
        proof {
            assert(current@ =~= data@);
            assert(ms.take(0int) =~= Seq::<(Seq<u8>, Seq<u8>)>::empty());
        }
        let mut i: usize = 0;
        while i < n
            invariant
                i <= n,
                n == self.layers@.len(),
                ms == self.models(),
                ms.len() == n,
                data@.len() + (NONCE_LEN + TAG_LEN) * n <= MAX_SEAL_LEN,
                current@ == onion_wrap(ms.take(i as int), data@),
                onion_unwrap(ms.take(i as int), current@) == Some(data@),
                current@.len() == data@.len() + (NONCE_LEN + TAG_LEN) * i,
            decreases n - i,
        {
            let layer = &self.layers[i];
            proof {
                assert((NONCE_LEN + TAG_LEN) * (i as int) <= (NONCE_LEN + TAG_LEN) * (n as int))
                    by (nonlinear_arith)
                    requires
                        i <= n,
                ;
            }
            let next = match layer.encrypt(&current) {
                Ok(c) => c,
                Err(e) => return Err(e),
            };
            proof {
                assert((NONCE_LEN + TAG_LEN) * ((i as int) + 1) == (NONCE_LEN + TAG_LEN) * (
                i as int) + (NONCE_LEN + TAG_LEN)) by (nonlinear_arith);
                let t1 = ms.take(i as int + 1);
                assert(t1.drop_last() =~= ms.take(i as int));
                assert(t1.last() == ms[i as int]);
                assert(ms[i as int].0 == layer.key_model() && ms[i as int].1
                    == layer.nonce_model());
            }
            current = next;
            i = i + 1;
        }
        proof {
            assert(ms.take(n as int) =~= ms);
        }
        Ok(current)
    }

    /// Peels every layer in reverse order, outermost first: returns the
    /// original bytes exactly when every layer's key and nonce match what
    /// wrapped them; aborts with a `Seal` error at the first failing layer.
    pub fn decrypt(&self, data: &Vec<u8>) -> (r: Result<Vec<u8>, CryptoError>)
        ensures
            r matches Ok(p) ==> onion_unwrap(self.models(), data@) == Some(p@),
            r is Ok <==> onion_unwrap(self.models(), data@) is Some,
            r matches Err(e) ==> e == CryptoError::Seal,
    {
        let ghost ms = self.models();
        let n = self.layers.len();
        let mut current = copy_range(data, 0, data.len());
        proof {
            assert(current@ =~= data@);
            assert(ms.take(n as int) =~= ms);
        }
        let mut i: usize = n;
        while i > 0
            invariant
                i <= n,
                n == self.layers@.len(),
                ms == self.models(),
                ms.len() == n,
                onion_unwrap(ms, data@) == onion_unwrap(ms.take(i as int), current@),
            decreases i,
        {
            let layer = &self.layers[i - 1];
            proof {
                let t = ms.take(i as int);
                assert(t.drop_last() =~= ms.take(i as int - 1));
                assert(t.last() == ms[i as int - 1]);
                assert(ms[i as int - 1].0 == layer.key_model() && ms[i as int - 1].1
                    == layer.nonce_model());
            }
            match layer.decrypt(&current) {
                Ok(p) => {
                    current = p;
                },
                Err(_) => {
                    return Err(CryptoError::Seal);
                },
            }
            i = i - 1;
        }
        proof {
            assert(ms.take(0int) =~= Seq::<(Seq<u8>, Seq<u8>)>::empty());
        }
        Ok(current)
    }

    /// Appends one fresh layer to the stack, leaving the existing layers in
    /// place.
    pub fn add_layer(&mut self) -> (r: Result<(), CryptoError>)
        ensures
            r matches Ok(_) ==> {
                &&& final(self).models().len() == old(self).models().len() + 1
                &&& final(self).models().drop_last() == old(self).models()
            },
            r matches Err(e) ==> e == CryptoError::Seal && *final(self) == *old(self),
    {
        let layer = match EncryptionLayer::new() {
            Ok(l) => l,
            Err(e) => return Err(e),
        };
        self.layers.push(layer);
        proof {
            assert(self.models().drop_last() =~= old(self).models());
        }
        Ok(())
    }

    /// The number of layers in the stack.
    pub fn layer_count(&self) -> (r: usize)
        ensures
            r == self.models().len(),
    {
        self.layers.len()
    }
}

} // verus!
