//! Trusted bindings to the cryptographic primitives.  Each binding names an
//! outside function, states only what that crate's source and documentation
//! show, and converts between plain byte vectors and the crate's own types.
//! Everything built on top of these contracts is verified.

use vstd::prelude::*;
use ed25519_dalek::Signer;
use ed25519_dalek::Verifier;
use rand::RngCore;

verus! {

/// The 32-byte keyed digest that `blake3::keyed_hash` computes over a
/// 32-byte key and an input; a function of the two arguments alone.
pub uninterp spec fn blake3_keyed_hash_of(key: Seq<u8>, data: Seq<u8>) -> Seq<u8>;

/// The 64-byte signature that ed25519 signing produces from a 32-byte
/// private-key seed and a message; the scheme is deterministic, so this is
/// a function of the two arguments alone.
pub uninterp spec fn ed25519_sign_of(seed: Seq<u8>, msg: Seq<u8>) -> Seq<u8>;

/// The 32-byte public key derived from a 32-byte private-key seed.
pub uninterp spec fn ed25519_pubkey_of(seed: Seq<u8>) -> Seq<u8>;

/// Whether 32 bytes are a well-formed ed25519 public key, that is, whether
/// `VerifyingKey::from_bytes` accepts them.
pub uninterp spec fn ed25519_valid_pubkey(pk: Seq<u8>) -> bool;

/// Whether ed25519 verification accepts a 64-byte signature over a message
/// under a valid 32-byte public key; deterministic in its three arguments.
pub uninterp spec fn ed25519_verifies(pk: Seq<u8>, msg: Seq<u8>, sig: Seq<u8>) -> bool;

/// Relies on `blake3::keyed_hash`: a 32-byte keyed digest, a deterministic
/// function of the key and the input.
#[verifier::external_body]
pub(crate) fn blake3_keyed_hash(key: &Vec<u8>, data: &[u8]) -> (r: Vec<u8>)
    requires
        key@.len() == 32,
    ensures
        r@.len() == 32,
        r@ == blake3_keyed_hash_of(key@, data@),
{
    let key: &[u8; 32] = key.as_slice().try_into().unwrap();
    blake3::keyed_hash(key, data).as_bytes().to_vec()
}

/// Relies on `ed25519_dalek::SigningKey::from_bytes` (which accepts any 32
/// bytes as a seed) and `Signer::sign`: a 64-byte deterministic signature
/// that `Verifier::verify` accepts under the key's own `VerifyingKey`.
#[verifier::external_body]
pub(crate) fn ed25519_sign(seed: &Vec<u8>, msg: &[u8]) -> (r: Vec<u8>)
    requires
        seed@.len() == 32,
    ensures
        r@.len() == 64,
        r@ == ed25519_sign_of(seed@, msg@),
        ed25519_verifies(ed25519_pubkey_of(seed@), msg@, r@),
{
    let seed: &[u8; 32] = seed.as_slice().try_into().unwrap();
    let key = ed25519_dalek::SigningKey::from_bytes(seed);
    key.sign(msg).to_bytes().to_vec()
}

/// Relies on `ed25519_dalek::VerifyingKey::from(&SigningKey)` and
/// `VerifyingKey::to_bytes`: the public key derived from a seed is 32 bytes,
/// and `VerifyingKey::from_bytes` accepts those bytes back.
#[verifier::external_body]
pub(crate) fn ed25519_derive_pubkey(seed: &Vec<u8>) -> (r: Vec<u8>)
    requires
        seed@.len() == 32,
    ensures
        r@.len() == 32,
        r@ == ed25519_pubkey_of(seed@),
        ed25519_valid_pubkey(r@),
{
    let seed: &[u8; 32] = seed.as_slice().try_into().unwrap();
    let key = ed25519_dalek::SigningKey::from_bytes(seed);
    let pk: ed25519_dalek::VerifyingKey = (&key).into();
    pk.to_bytes().to_vec()
}

/// Relies on `ed25519_dalek::VerifyingKey::from_bytes`: whether it accepts
/// 32 bytes as a public key depends on those bytes alone.
#[verifier::external_body]
pub(crate) fn ed25519_pubkey_is_valid(pk: &Vec<u8>) -> (r: bool)
    requires
        pk@.len() == 32,
    ensures
        r == ed25519_valid_pubkey(pk@),
{
    let pk: &[u8; 32] = pk.as_slice().try_into().unwrap();
    ed25519_dalek::VerifyingKey::from_bytes(pk).is_ok()
}

/// Relies on `ed25519_dalek::Verifier::verify` (with
/// `Signature::from_bytes`, which accepts any 64 bytes): acceptance is a
/// deterministic function of public key, message and signature.
#[verifier::external_body]
pub(crate) fn ed25519_verify(pk: &Vec<u8>, msg: &[u8], sig: &Vec<u8>) -> (r: bool)
    requires
        pk@.len() == 32,
        ed25519_valid_pubkey(pk@),
        sig@.len() == 64,
    ensures
        r == ed25519_verifies(pk@, msg@, sig@),
{
    let pk: &[u8; 32] = pk.as_slice().try_into().unwrap();
    let key = ed25519_dalek::VerifyingKey::from_bytes(pk).unwrap();
    let sig: &[u8; 64] = sig.as_slice().try_into().unwrap();
    let sig = ed25519_dalek::Signature::from_bytes(sig);
    key.verify(msg, &sig).is_ok()
}

/// Relies on `rand::rngs::OsRng` filling a buffer from the operating
/// system's secure random source; nothing is promised beyond the length.
#[verifier::external_body]
pub(crate) fn os_random_32() -> (r: Vec<u8>)
    ensures
        r@.len() == 32,
{
    let mut bytes = [0u8; 32];
    rand::rngs::OsRng.fill_bytes(&mut bytes);
    bytes.to_vec()
}

} // verus!
