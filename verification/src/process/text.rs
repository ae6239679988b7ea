//! The text-authentication engine: signing and verifying byte streams under
//! two interchangeable schemes — a symmetric keyed hash and an asymmetric
//! signature scheme — plus the matching key generation.  Key material is
//! raw bytes: at least 32 bytes are required, exactly the first 32 are used,
//! and excess bytes are deliberately ignored.

use vstd::prelude::*;
use crate::cli::text::TextSignFormat;
use crate::process::crypto::blake3_keyed_hash;
use crate::process::crypto::blake3_keyed_hash_of;
use crate::process::crypto::ed25519_derive_pubkey;
use crate::process::crypto::ed25519_pubkey_is_valid;
use crate::process::crypto::ed25519_pubkey_of;
use crate::process::crypto::ed25519_sign;
use crate::process::crypto::ed25519_sign_of;
use crate::process::crypto::ed25519_valid_pubkey;
use crate::process::crypto::ed25519_verifies;
use crate::process::crypto::ed25519_verify;
use crate::process::crypto::os_random_32;
use crate::process::gen_pass::has_class_member;
use crate::process::gen_pass::in_enabled_charset;
use crate::process::gen_pass::lower_chars;
use crate::process::gen_pass::number_chars;
use crate::process::gen_pass::process_genpass;
use crate::process::gen_pass::symbol_chars;
use crate::process::gen_pass::upper_chars;

verus! {

/// The failures the engine can report.  A signature that merely does not
/// match is not an error: verification returns `false` for it.
#[derive(Debug, Clone, Copy, PartialEq, Eq, Structural)]
pub enum TextError {
    /// Key material is missing its first 32 bytes, or those bytes are not a
    /// valid key for the scheme.
    KeyError,
    /// The supplied signature is too short to contain the scheme's
    /// signature.
    SignatureFormatError,
}

impl TextError {
    /// A short description of the failure.
    pub fn message(&self) -> (r: &'static str)
        ensures
            *self is KeyError ==> r@ == "key must be at least 32 bytes"@,
            *self is SignatureFormatError ==> r@ == "signature must be at least 64 bytes"@,
    {
        match self {
            TextError::KeyError => "key must be at least 32 bytes",
            TextError::SignatureFormatError => "signature must be at least 64 bytes",
        }
    }
}

/// Generated key material: artifact names, in a fixed order, with the raw
/// bytes to persist under each name.  Ownership passes to the caller.
pub type GeneratedKeySet = Vec<(&'static str, Vec<u8>)>;

/// The signature each scheme produces: the keyed hash's 32-byte digest, or
/// the asymmetric scheme's 64-byte signature.  Only the first 32 key bytes
/// take part.
pub open spec fn spec_sign(format: TextSignFormat, key: Seq<u8>, data: Seq<u8>) -> Seq<u8> {
    match format {
        TextSignFormat::Blake3 => blake3_keyed_hash_of(key.take(32), data),
        TextSignFormat::Ed25519 => ed25519_sign_of(key.take(32), data),
    }
}

/// How long each scheme's signature is.
pub open spec fn spec_sig_len(format: TextSignFormat) -> nat {
    match format {
        TextSignFormat::Blake3 => 32,
        TextSignFormat::Ed25519 => 64,
    }
}

/// Whether verification accepts: the keyed hash compares the supplied bytes
/// with the recomputed digest; the asymmetric scheme checks the first 64
/// signature bytes under the public key in the first 32 key bytes.
pub open spec fn spec_verify(
    format: TextSignFormat,
    key: Seq<u8>,
    data: Seq<u8>,
    sig: Seq<u8>,
) -> bool {
    match format {
        TextSignFormat::Blake3 => sig == blake3_keyed_hash_of(key.take(32), data),
        TextSignFormat::Ed25519 => ed25519_verifies(key.take(32), data, sig.take(64)),
    }
}

/// When verification returns a result rather than an error: the key must
/// have 32 bytes, and for the asymmetric scheme those bytes must encode a
/// public key and the signature must have 64 bytes.
pub open spec fn spec_verify_ok(format: TextSignFormat, key: Seq<u8>, sig: Seq<u8>) -> bool {
    &&& key.len() >= 32
    &&& (format is Ed25519 ==> ed25519_valid_pubkey(key.take(32)) && sig.len() >= 64)
}

/// A fresh vector holding the first `n` bytes of a slice.
fn prefix_bytes(b: &[u8], n: usize) -> (v: Vec<u8>)
    requires
        b@.len() >= n,
    ensures
        v@ == b@.take(n as int),
{
    let mut v: Vec<u8> = Vec::new();
    let mut i: usize = 0;
    while i < n
        invariant
            i <= n,
            n <= b@.len(),
            v@ =~= b@.take(i as int),
        decreases n - i,
    {
        v.push(b[i]);
        assert(v@ =~= b@.take(i as int + 1));
        i = i + 1;
    }
    v
}

/// Byte-for-byte equality of two slices.
fn bytes_eq(a: &[u8], b: &[u8]) -> (r: bool)
    ensures
        r == (a@ == b@),
{
    if a.len() != b.len() {
        return false;
    }
    let mut i: usize = 0;
    while i < a.len()
        invariant
            i <= a@.len(),
            a@.len() == b@.len(),
            forall|j: int| 0 <= j < i ==> a@[j] == b@[j],
        decreases a@.len() - i,
    {
        if a[i] != b[i] {
            return false;
        }
        i = i + 1;
    }
    proof {
        assert(a@ =~= b@);
    }
    true
}

/// A signer can produce a signature over any byte input.
pub trait TextSigner {
    /// The signer holds a well-formed key.
    spec fn signer_wf(&self) -> bool;

    /// The signature this signer produces over an input.
    spec fn spec_signature(&self, data: Seq<u8>) -> Seq<u8>;

    /// Consumes the whole input and returns its signature; never fails for
    /// a well-formed signer.
    fn sign(&self, data: &[u8]) -> (r: Result<Vec<u8>, TextError>)
        requires
            self.signer_wf(),
        ensures
            r is Ok,
            r is Ok ==> r->Ok_0@ == self.spec_signature(data@),
    ;
}

/// A verifier can confirm that a byte input matches a signature.
pub trait TextVerifier {
    /// The verifier holds a well-formed key.
    spec fn verifier_wf(&self) -> bool;

    /// Whether the supplied signature bytes are structurally acceptable.
    spec fn sig_well_formed(&self, sig: Seq<u8>) -> bool;

    /// Whether verification accepts the input under this signature.
    spec fn spec_accepts(&self, data: Seq<u8>, sig: Seq<u8>) -> bool;

    /// Recomputes over the whole input and compares.  A mismatch is the
    /// `false` result, never an error; only a structurally unacceptable
    /// signature is.
    fn verify(&self, data: &[u8], sig: &[u8]) -> (r: Result<bool, TextError>)
        requires
            self.verifier_wf(),
        ensures
            r is Ok <==> self.sig_well_formed(sig@),
            r is Ok ==> r->Ok_0 == self.spec_accepts(data@, sig@),
            r is Err ==> r->Err_0 == TextError::SignatureFormatError,
    ;
}

/// The symmetric variant: a 32-byte key for a keyed cryptographic hash.
/// One value both signs and verifies.
pub struct Blake3 {
    key: Vec<u8>,
}

impl Blake3 {
    /// The stored key is exactly 32 bytes.
    pub closed spec fn wf(&self) -> bool {
        self.key@.len() == 32
    }

    /// The stored key bytes.
    pub closed spec fn key_bytes(&self) -> Seq<u8> {
        self.key@
    }

    /// Builds a signer/verifier from raw key material: fails if fewer than
    /// 32 bytes are supplied, and keeps exactly the first 32.
    pub fn try_new(key: &[u8]) -> (r: Result<Self, TextError>)
        ensures
            r is Ok <==> key@.len() >= 32,
            r is Err ==> r->Err_0 == TextError::KeyError,
            r is Ok ==> r->Ok_0.wf() && r->Ok_0.key_bytes() == key@.take(32),
    {
        if key.len() < 32 {
            return Err(TextError::KeyError);
        }
        Ok(Blake3 { key: prefix_bytes(key, 32) })
    }

    /// Builds a signer/verifier from an exact 32-byte key.
    pub fn new(key: [u8; 32]) -> (r: Self)
        ensures
            r.wf(),
            r.key_bytes() == key@,
    {
        let k = prefix_bytes(key.as_slice(), 32);
        proof {
            assert(key@.take(32) =~= key@);
        }
        Blake3 { key: k }
    }

    /// Generates fresh symmetric key material: one 32-byte artifact drawn
    /// through the password generator with every character class enabled, so
    /// each byte comes from those classes and each class contributes at
    /// least one byte.
    fn generate() -> (r: GeneratedKeySet)
        ensures
            r@.len() == 1,
            r@[0].0@ == "blake3.txt"@,
            r@[0].1@.len() == 32,
            forall|i: int|
                0 <= i < r@[0].1@.len() ==> in_enabled_charset(
                    #[trigger] r@[0].1@[i],
                    true,
                    true,
                    true,
                    true,
                ),
            has_class_member(r@[0].1@, upper_chars()),
            has_class_member(r@[0].1@, lower_chars()),
            has_class_member(r@[0].1@, number_chars()),
            has_class_member(r@[0].1@, symbol_chars()),
    {
        let key = process_genpass(32, true, true, true, true);
        let mut set: GeneratedKeySet = Vec::new();
        set.push(("blake3.txt", key));
        set
    }
}

impl TextSigner for Blake3 {
    open spec fn signer_wf(&self) -> bool {
        self.wf()
    }

    open spec fn spec_signature(&self, data: Seq<u8>) -> Seq<u8> {
        blake3_keyed_hash_of(self.key_bytes(), data)
    }

    fn sign(&self, data: &[u8]) -> (r: Result<Vec<u8>, TextError>)
        ensures
            r is Ok ==> r->Ok_0@.len() == 32,
    {
        Ok(blake3_keyed_hash(&self.key, data))
    }
}

impl TextVerifier for Blake3 {
    open spec fn verifier_wf(&self) -> bool {
        self.wf()
    }

    /// Any signature length is acceptable; a wrong length simply never
    /// matches the 32-byte digest.
    open spec fn sig_well_formed(&self, sig: Seq<u8>) -> bool {
        true
    }

    open spec fn spec_accepts(&self, data: Seq<u8>, sig: Seq<u8>) -> bool {
        sig == blake3_keyed_hash_of(self.key_bytes(), data)
    }

    fn verify(&self, data: &[u8], sig: &[u8]) -> (r: Result<bool, TextError>) {
        let expected = blake3_keyed_hash(&self.key, data);
        Ok(bytes_eq(sig, expected.as_slice()))
    }
}

/// The asymmetric signing variant: a 32-byte private-key seed.
pub struct Ed25519Signer {
    key: Vec<u8>,
}

impl Ed25519Signer {
    /// The stored seed is exactly 32 bytes.
    pub closed spec fn wf(&self) -> bool {
        self.key@.len() == 32
    }

    /// The stored private-key seed.
    pub closed spec fn key_bytes(&self) -> Seq<u8> {
        self.key@
    }

    /// Builds a signer from raw key material: fails if fewer than 32 bytes
    /// are supplied, and keeps exactly the first 32 as the seed.
    pub fn try_new(key: &[u8]) -> (r: Result<Self, TextError>)
        ensures
            r is Ok <==> key@.len() >= 32,
            r is Err ==> r->Err_0 == TextError::KeyError,
            r is Ok ==> r->Ok_0.wf() && r->Ok_0.key_bytes() == key@.take(32),
    {
        if key.len() < 32 {
            return Err(TextError::KeyError);
        }
        Ok(Ed25519Signer { key: prefix_bytes(key, 32) })
    }

    /// Builds a signer from an exact 32-byte seed.
    pub fn new(key: &[u8; 32]) -> (r: Self)
        ensures
            r.wf(),
            r.key_bytes() == key@,
    {
        let k = prefix_bytes(key.as_slice(), 32);
        proof {
            assert(key@.take(32) =~= key@);
        }
        Ed25519Signer { key: k }
    }

    /// Generates a fresh key pair from the secure random source: the
    /// 32-byte private seed and the 32-byte public key derived from it.
    fn generate() -> (r: GeneratedKeySet)
        ensures
            r@.len() == 2,
            r@[0].0@ == "ed25519.sk"@,
            r@[1].0@ == "ed25519.pk"@,
            r@[0].1@.len() == 32,
            r@[1].1@.len() == 32,
            r@[1].1@ == ed25519_pubkey_of(r@[0].1@),
            ed25519_valid_pubkey(r@[1].1@),
    {
        let sk = os_random_32();
        let pk = ed25519_derive_pubkey(&sk);
        let mut set: GeneratedKeySet = Vec::new();
        set.push(("ed25519.sk", sk));
        set.push(("ed25519.pk", pk));
        set
    }
}

impl TextSigner for Ed25519Signer {
    open spec fn signer_wf(&self) -> bool {
        self.wf()
    }

    open spec fn spec_signature(&self, data: Seq<u8>) -> Seq<u8> {
        ed25519_sign_of(self.key_bytes(), data)
    }

    fn sign(&self, data: &[u8]) -> (r: Result<Vec<u8>, TextError>)
        ensures
            r is Ok ==> r->Ok_0@.len() == 64,
            r is Ok ==> ed25519_verifies(
                ed25519_pubkey_of(self.key_bytes()),
                data@,
                r->Ok_0@,
            ),
    {
        Ok(ed25519_sign(&self.key, data))
    }
}

/// The asymmetric verifying variant: a 32-byte public key, checked for a
/// valid encoding at construction.
pub struct Ed25519Verifier {
    key: Vec<u8>,
}

impl Ed25519Verifier {
    /// The stored key is exactly 32 bytes and a valid public-key encoding.
    pub closed spec fn wf(&self) -> bool {
        self.key@.len() == 32 && ed25519_valid_pubkey(self.key@)
    }

    /// The stored public-key bytes.
    pub closed spec fn key_bytes(&self) -> Seq<u8> {
        self.key@
    }

    /// Builds a verifier from raw key material: fails if fewer than 32
    /// bytes are supplied or if the first 32 are not a valid public-key
    /// encoding; keeps exactly the first 32.
    pub fn try_new(key: &[u8]) -> (r: Result<Self, TextError>)
        ensures
            r is Ok <==> key@.len() >= 32 && ed25519_valid_pubkey(key@.take(32)),
            r is Err ==> r->Err_0 == TextError::KeyError,
            r is Ok ==> r->Ok_0.wf() && r->Ok_0.key_bytes() == key@.take(32),
    {
        if key.len() < 32 {
            return Err(TextError::KeyError);
        }
        let pk = prefix_bytes(key, 32);
        if !ed25519_pubkey_is_valid(&pk) {
            return Err(TextError::KeyError);
        }
        Ok(Ed25519Verifier { key: pk })
    }
}

impl TextVerifier for Ed25519Verifier {
    open spec fn verifier_wf(&self) -> bool {
        self.wf()
    }

    /// The supplied signature must contain the 64 signature bytes.
    open spec fn sig_well_formed(&self, sig: Seq<u8>) -> bool {
        sig.len() >= 64
    }

    open spec fn spec_accepts(&self, data: Seq<u8>, sig: Seq<u8>) -> bool {
        ed25519_verifies(self.key_bytes(), data, sig.take(64))
    }

    fn verify(&self, data: &[u8], sig: &[u8]) -> (r: Result<bool, TextError>) {
        if sig.len() < 64 {
            return Err(TextError::SignatureFormatError);
        }
        let sig64 = prefix_bytes(sig, 64);
        Ok(ed25519_verify(&self.key, data, &sig64))
    }
}

/// Signs a byte input with the selected scheme.  Succeeds exactly when the
/// key material has at least 32 bytes; the signature is the scheme's
/// function of the first 32 key bytes and the input.  An asymmetric
/// signature additionally verifies under the public key derived from the
/// seed that signed it.
pub fn process_text_sign(data: &[u8], key: &[u8], format: TextSignFormat) -> (r: Result<
    Vec<u8>,
    TextError,
>)
    ensures
        r is Ok <==> key@.len() >= 32,
        r is Err ==> r->Err_0 == TextError::KeyError,
        r is Ok ==> r->Ok_0@ == spec_sign(format, key@, data@),
        r is Ok ==> r->Ok_0@.len() == spec_sig_len(format),
        format is Ed25519 && r is Ok ==> ed25519_verifies(
            ed25519_pubkey_of(key@.take(32)),
            data@,
            r->Ok_0@,
        ),
{
    match format {
        TextSignFormat::Blake3 => {
            match Blake3::try_new(key) {
                Ok(signer) => signer.sign(data),
                Err(e) => Err(e),
            }
        },
        TextSignFormat::Ed25519 => {
            match Ed25519Signer::try_new(key) {
                Ok(signer) => signer.sign(data),
                Err(e) => Err(e),
            }
        },
    }
}

/// Verifies a byte input against a signature with the selected scheme.  A
/// mismatch is the `false` result; errors are reserved for structural
/// problems: too little key material (or an invalid public key) and, for
/// the asymmetric scheme, a signature shorter than 64 bytes.
pub fn process_text_verify(
    data: &[u8],
    key: &[u8],
    sig: &[u8],
    format: TextSignFormat,
) -> (r: Result<bool, TextError>)
    ensures
        r is Ok <==> spec_verify_ok(format, key@, sig@),
        r is Ok ==> r->Ok_0 == spec_verify(format, key@, data@, sig@),
        key@.len() < 32 ==> r == Err::<bool, TextError>(TextError::KeyError),
        format is Ed25519 && key@.len() >= 32 && !ed25519_valid_pubkey(key@.take(32))
            ==> r == Err::<bool, TextError>(TextError::KeyError),
        format is Ed25519 && key@.len() >= 32 && ed25519_valid_pubkey(key@.take(32))
            && sig@.len() < 64 ==> r == Err::<bool, TextError>(
            TextError::SignatureFormatError,
        ),
{
    match format {
        TextSignFormat::Blake3 => {
            match Blake3::try_new(key) {
                Ok(verifier) => verifier.verify(data, sig),
                Err(e) => Err(e),
            }
        },
        TextSignFormat::Ed25519 => {
            match Ed25519Verifier::try_new(key) {
                Ok(verifier) => verifier.verify(data, sig),
                Err(e) => Err(e),
            }
        },
    }
}

/// Generates fresh key material for the selected scheme: one 32-byte
/// artifact for the keyed hash, drawn through the password generator with
/// every character class enabled; for the asymmetric scheme a private seed
/// and the public key derived from it, under fixed artifact names.
pub fn process_text_key_generate(format: TextSignFormat) -> (r: Result<
    GeneratedKeySet,
    TextError,
>)
    ensures
        r is Ok,
        format is Blake3 ==> {
            &&& r->Ok_0@.len() == 1
            &&& r->Ok_0@[0].0@ == "blake3.txt"@
            &&& r->Ok_0@[0].1@.len() == 32
            &&& forall|i: int|
                0 <= i < r->Ok_0@[0].1@.len() ==> in_enabled_charset(
                    #[trigger] r->Ok_0@[0].1@[i],
                    true,
                    true,
                    true,
                    true,
                )
            &&& has_class_member(r->Ok_0@[0].1@, upper_chars())
            &&& has_class_member(r->Ok_0@[0].1@, lower_chars())
            &&& has_class_member(r->Ok_0@[0].1@, number_chars())
            &&& has_class_member(r->Ok_0@[0].1@, symbol_chars())
        },
        format is Ed25519 ==> {
            &&& r->Ok_0@.len() == 2
            &&& r->Ok_0@[0].0@ == "ed25519.sk"@
            &&& r->Ok_0@[1].0@ == "ed25519.pk"@
            &&& r->Ok_0@[0].1@.len() == 32
            &&& r->Ok_0@[1].1@.len() == 32
            &&& r->Ok_0@[1].1@ == ed25519_pubkey_of(r->Ok_0@[0].1@)
            &&& ed25519_valid_pubkey(r->Ok_0@[1].1@)
        },
{
    match format {
        TextSignFormat::Blake3 => Ok(Blake3::generate()),
        TextSignFormat::Ed25519 => Ok(Ed25519Signer::generate()),
    }
}

/// A keyed-hash signature always verifies against the key and input that
/// produced it: for every key and every input, verifying the freshly
/// computed digest accepts.
pub proof fn lemma_keyed_hash_round_trip(key: Seq<u8>, data: Seq<u8>)
    ensures
        spec_verify(
            TextSignFormat::Blake3,
            key,
            data,
            spec_sign(TextSignFormat::Blake3, key, data),
        ),
{
}

/// The keyed hash rejects everything else: any signature that is not the
/// digest itself is refused, for every key and input.
pub proof fn lemma_keyed_hash_rejects_mismatch(key: Seq<u8>, data: Seq<u8>, sig: Seq<u8>)
    requires
        sig != spec_sign(TextSignFormat::Blake3, key, data),
    ensures
        !spec_verify(TextSignFormat::Blake3, key, data, sig),
{
}

/// The keyed hash is deterministic: two signatures over the same key and
/// input are byte-for-byte identical.
pub proof fn lemma_keyed_hash_deterministic(
    key: Seq<u8>,
    data: Seq<u8>,
    sig1: Seq<u8>,
    sig2: Seq<u8>,
)
    requires
        sig1 == spec_sign(TextSignFormat::Blake3, key, data),
        sig2 == spec_sign(TextSignFormat::Blake3, key, data),
    ensures
        sig1 == sig2,
{
}

/// An asymmetric signature accepted under a 32-byte public key — as every
/// signature returned by signing is, under the public key derived from its
/// seed — passes full verification when supplied as the 64 signature bytes.
/// Together with the contracts of [`process_text_sign`] and
/// [`process_text_key_generate`], a generated key pair signs and verifies
/// for arbitrary input.
pub proof fn lemma_asymmetric_round_trip(pk: Seq<u8>, data: Seq<u8>, sig: Seq<u8>)
    requires
        pk.len() == 32,
        sig.len() == 64,
        ed25519_verifies(pk, data, sig),
    ensures
        spec_verify(TextSignFormat::Ed25519, pk, data, sig),
{
    assert(pk.take(32) =~= pk);
    assert(sig.take(64) =~= sig);
}

} // verus!
