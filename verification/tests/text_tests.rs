use rcli::TextError;
use rcli::TextSignFormat;
use rcli::process_text_key_generate;
use rcli::process_text_sign;
use rcli::process_text_verify;

#[test]
fn test_process_text_sign() {
    let key: &[u8] = b"0123456789abcdef0123456789abcdef";
    let data: &[u8] = b"hello";
    let format = TextSignFormat::Blake3;
    let sig = process_text_sign(data, key, format).unwrap();
    let ret = process_text_verify(data, key, &sig, format).unwrap();
    assert!(ret);
}

#[test]
fn test_process_text_verify() {
    let key: &[u8] = b"0123456789abcdef0123456789abcdef";
    let data: &[u8] = b"hello";
    let format = TextSignFormat::Blake3;
    let sig = process_text_sign(data, key, format).unwrap();
    let ret = process_text_verify(data, key, &sig, format).unwrap();
    assert!(ret);
}

// Key of 32 zero bytes, input "hello": signing twice yields the same
// 32-byte digest, and the first digest verifies against the second input.
#[test]
fn test_keyed_hash_zero_key_deterministic() {
    let key = [0u8; 32];
    let data: &[u8] = b"hello";
    let sig1 = process_text_sign(data, &key, TextSignFormat::Blake3).unwrap();
    let sig2 = process_text_sign(data, &key, TextSignFormat::Blake3).unwrap();
    assert_eq!(sig1.len(), 32);
    assert_eq!(sig2.len(), 32);
    assert_eq!(sig1, sig2);
    let ret = process_text_verify(data, &key, &sig1, TextSignFormat::Blake3).unwrap();
    assert!(ret);
}

#[test]
fn test_keyed_hash_rejects_mismatch() {
    let key: &[u8] = b"0123456789abcdef0123456789abcdef";
    let data: &[u8] = b"hello";
    let mut sig = process_text_sign(data, key, TextSignFormat::Blake3).unwrap();
    sig[0] = sig[0].wrapping_add(1);
    let ret = process_text_verify(data, key, &sig, TextSignFormat::Blake3).unwrap();
    assert!(!ret);
    // a signature of the wrong length is a plain mismatch, not an error
    let ret = process_text_verify(data, key, b"abc", TextSignFormat::Blake3).unwrap();
    assert!(!ret);
}

// The digest is not the key or the input handed back: a different key over
// the same input changes the signature.
#[test]
fn test_keyed_hash_depends_on_key() {
    let key1: &[u8] = b"0123456789abcdef0123456789abcdef";
    let key2: &[u8] = b"another-key-value-0123456789abcd";
    let data: &[u8] = b"hello";
    let sig1 = process_text_sign(data, key1, TextSignFormat::Blake3).unwrap();
    let sig2 = process_text_sign(data, key2, TextSignFormat::Blake3).unwrap();
    assert_ne!(sig1, sig2);
    assert_ne!(sig1.as_slice(), &key1[..32]);
}

// Bytes beyond the 32nd are ignored: a longer key signs identically to its
// first 32 bytes.
#[test]
fn test_key_excess_bytes_ignored() {
    let long_key: &[u8] = b"0123456789abcdef0123456789abcdefEXTRA";
    let data: &[u8] = b"hello";
    let sig_long = process_text_sign(data, long_key, TextSignFormat::Blake3).unwrap();
    let sig_short = process_text_sign(data, &long_key[..32], TextSignFormat::Blake3).unwrap();
    assert_eq!(sig_long, sig_short);
}

// Key material shorter than 32 bytes fails with KeyError for both schemes,
// signing and verifying alike.
#[test]
fn test_short_key_rejected() {
    let key: &[u8] = b"0123456789abcdef0123456789abcde";
    assert_eq!(key.len(), 31);
    let data: &[u8] = b"hello";
    let sig = [0u8; 64];
    assert_eq!(
        process_text_sign(data, key, TextSignFormat::Blake3),
        Err(TextError::KeyError)
    );
    assert_eq!(
        process_text_sign(data, key, TextSignFormat::Ed25519),
        Err(TextError::KeyError)
    );
    assert_eq!(
        process_text_verify(data, key, &sig, TextSignFormat::Blake3),
        Err(TextError::KeyError)
    );
    assert_eq!(
        process_text_verify(data, key, &sig, TextSignFormat::Ed25519),
        Err(TextError::KeyError)
    );
}

// An asymmetric signature shorter than 64 bytes is a format error, not a
// mismatch.
#[test]
fn test_short_signature_rejected() {
    let keyset = process_text_key_generate(TextSignFormat::Ed25519).unwrap();
    let pk = &keyset[1].1;
    let data: &[u8] = b"hello";
    let sig = [0u8; 63];
    assert_eq!(
        process_text_verify(data, pk, &sig, TextSignFormat::Ed25519),
        Err(TextError::SignatureFormatError)
    );
}

// Generated key material: one 32-byte artifact for the keyed hash; a
// 32-byte seed and 32-byte public key for the asymmetric scheme.
#[test]
fn test_key_generate_artifacts() {
    let keyset = process_text_key_generate(TextSignFormat::Blake3).unwrap();
    assert_eq!(keyset.len(), 1);
    assert_eq!(keyset[0].0, "blake3.txt");
    assert_eq!(keyset[0].1.len(), 32);

    let keyset = process_text_key_generate(TextSignFormat::Ed25519).unwrap();
    assert_eq!(keyset.len(), 2);
    assert_eq!(keyset[0].0, "ed25519.sk");
    assert_eq!(keyset[1].0, "ed25519.pk");
    assert_eq!(keyset[0].1.len(), 32);
    assert_eq!(keyset[1].1.len(), 32);
    assert_ne!(keyset[0].1, keyset[1].1);
}

// The generated keyed-hash artifact is drawn through the password
// generator: every byte comes from its four character classes, with at
// least one byte from each class — never a constant or zeroed key.
#[test]
fn test_key_generate_keyed_hash_charset() {
    let upper: &[u8] = b"ABCDEFGHJKLMNPQRSTUVWXYZ";
    let lower: &[u8] = b"abcdefghijkmnopqrstuvwxyz";
    let number: &[u8] = b"123456789";
    let symbol: &[u8] = b"!@#$%^&*_";
    let keyset = process_text_key_generate(TextSignFormat::Blake3).unwrap();
    let key = &keyset[0].1;
    assert!(key.iter().all(|b| {
        upper.contains(b) || lower.contains(b) || number.contains(b) || symbol.contains(b)
    }));
    assert!(key.iter().any(|b| upper.contains(b)));
    assert!(key.iter().any(|b| lower.contains(b)));
    assert!(key.iter().any(|b| number.contains(b)));
    assert!(key.iter().any(|b| symbol.contains(b)));
}

// Generate an asymmetric key pair, sign "hello world" with the private
// artifact, verify with the public artifact; then verify the same
// signature against "hello world!".
#[test]
fn test_asymmetric_round_trip() {
    let keyset = process_text_key_generate(TextSignFormat::Ed25519).unwrap();
    let sk = &keyset[0].1;
    let pk = &keyset[1].1;
    let data: &[u8] = b"hello world";
    let sig = process_text_sign(data, sk, TextSignFormat::Ed25519).unwrap();
    assert_eq!(sig.len(), 64);
    let ret = process_text_verify(data, pk, &sig, TextSignFormat::Ed25519).unwrap();
    assert!(ret);
    let ret = process_text_verify(b"hello world!", pk, &sig, TextSignFormat::Ed25519).unwrap();
    assert!(!ret);
}

// A tampered asymmetric signature of the right length is a `false` result,
// never an error.
#[test]
fn test_asymmetric_rejects_mismatch() {
    let keyset = process_text_key_generate(TextSignFormat::Ed25519).unwrap();
    let sk = &keyset[0].1;
    let pk = &keyset[1].1;
    let data: &[u8] = b"hello world";
    let mut sig = process_text_sign(data, sk, TextSignFormat::Ed25519).unwrap();
    sig[10] = sig[10].wrapping_add(1);
    let ret = process_text_verify(data, pk, &sig, TextSignFormat::Ed25519).unwrap();
    assert!(!ret);
}

// The asymmetric scheme in use signs deterministically, and the signature
// is tied to the seed: a different seed signs differently.
#[test]
fn test_asymmetric_sign_deterministic() {
    let seed: &[u8] = b"0123456789abcdef0123456789abcdef";
    let other: &[u8] = b"another-key-value-0123456789abcd";
    let data: &[u8] = b"hello";
    let sig1 = process_text_sign(data, seed, TextSignFormat::Ed25519).unwrap();
    let sig2 = process_text_sign(data, seed, TextSignFormat::Ed25519).unwrap();
    let sig3 = process_text_sign(data, other, TextSignFormat::Ed25519).unwrap();
    assert_eq!(sig1, sig2);
    assert_ne!(sig1, sig3);
}

// The compressed encoding with y = 2 does not decompress to a curve point,
// so verifier construction rejects it with KeyError.
#[test]
fn test_invalid_public_key_rejected() {
    let mut pk = [0u8; 32];
    pk[0] = 2;
    let data: &[u8] = b"hello";
    let sig = [0u8; 64];
    assert_eq!(
        process_text_verify(data, &pk, &sig, TextSignFormat::Ed25519),
        Err(TextError::KeyError)
    );
}

#[test]
fn test_error_messages() {
    assert_eq!(TextError::KeyError.message(), "key must be at least 32 bytes");
    assert_eq!(
        TextError::SignatureFormatError.message(),
        "signature must be at least 64 bytes"
    );
}
