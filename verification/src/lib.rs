//! An anonymity layer for peer-to-peer messaging: short-lived signing
//! identities, a canonical tag-length-value message codec, authenticated
//! sealing of messages, onion-style layered encryption, randomized multi-hop
//! routing, and decoy-traffic scheduling.

use vstd::prelude::*;

pub mod primitives;
pub mod wire;
pub mod anon_protocol;
pub mod chaotic_routing;
pub mod fake_traffic;
pub mod multi_layer;
pub mod onion;

verus! {

/// The error taxonomy of the library. Every fallible operation reports
/// exactly one of these; none is ever swallowed into a silent default.
#[derive(Clone, Copy, Debug, PartialEq, Eq, Structural)]
pub enum CryptoError {
    /// Keypair or random generation failed while minting an identity.
    Identity,
    /// Malformed or truncated wire bytes on decode.
    Codec,
    /// AEAD tag mismatch, wrong key, or truncated ciphertext on open.
    Seal,
    /// An empty available-peer set when a non-empty route was requested.
    Route,
    /// Random-source failure while generating decoy traffic.
    Scheduler,
}

} // verus!
