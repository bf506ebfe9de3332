use sha2::Digest;

use tor_lifecycle::hidden::resolve_key;
use tor_lifecycle::HiddenServiceKeySpec;

fn clamp_reference(seed: &[u8]) -> Vec<u8> {
    let mut h: Vec<u8> = sha2::Sha512::digest(seed).to_vec();
    h[0] &= 248;
    h[31] &= 127;
    h[31] |= 64;
    h
}

#[test]
fn expand_rejects_wrong_length() {
    assert!(tor_lifecycle::expand_seed_to_secret(&[]).is_none());
    assert!(tor_lifecycle::expand_seed_to_secret(&[0u8; 31]).is_none());
    assert!(tor_lifecycle::expand_seed_to_secret(&[0u8; 33]).is_none());
    assert!(tor_lifecycle::expand_seed_to_secret(&[0u8; 64]).is_none());
}

#[test]
fn expand_is_deterministic() {
    let seed = [7u8; 32];
    let a = tor_lifecycle::expand_seed_to_secret(&seed).unwrap();
    let b = tor_lifecycle::expand_seed_to_secret(&seed).unwrap();
    assert_eq!(a, b);
    assert_eq!(a.len(), 64);
}

#[test]
fn expand_matches_clamped_digest() {
    let seed: Vec<u8> = (0u8..32).collect();
    let got = tor_lifecycle::expand_seed_to_secret(&seed).unwrap();
    assert_eq!(got, clamp_reference(&seed));
    // the clamp changes the raw digest, so the wrapper's output is not the
    // digest handed back unchanged
    assert_ne!(got, sha2::Sha512::digest(&seed[..]).to_vec());
}

#[test]
fn expand_output_bits_are_clamped() {
    for fill in [0u8, 1, 63, 255] {
        let seed = [fill; 32];
        let out = tor_lifecycle::expand_seed_to_secret(&seed).unwrap();
        assert_eq!(out[0] & 0b0000_0111, 0);
        assert_eq!(out[31] & 0b1000_0000, 0);
        assert_eq!(out[31] & 0b0100_0000, 0b0100_0000);
    }
}

fn spec_with(seed_hex: Option<&str>, generate: Option<bool>) -> HiddenServiceKeySpec {
    HiddenServiceKeySpec {
        onion: None,
        seed_hex: seed_hex.map(|s| s.to_string()),
        pub_hex: None,
        generate,
    }
}

#[test]
fn resolve_key_defaults_to_random() {
    let hex32 = "11".repeat(32);
    assert!(resolve_key(&spec_with(Some(&hex32), None)).is_none());
    assert!(resolve_key(&spec_with(Some(&hex32), Some(true))).is_none());
    assert!(resolve_key(&spec_with(None, Some(false))).is_none());
}

#[test]
fn resolve_key_derives_from_valid_seed() {
    let hex32 = "00010203040506070809f0f1f2f3f4f5a0a1a2a3a4a5a6a7b8b9babbbcbdbebf";
    let key = resolve_key(&spec_with(Some(hex32), Some(false))).unwrap();
    let seed = hex::decode(hex32).unwrap();
    assert_eq!(key, clamp_reference(&seed));
    // upper-case digits decode to the same seed
    let upper = resolve_key(&spec_with(Some(&hex32.to_uppercase()), Some(false))).unwrap();
    assert_eq!(upper, key);
}

#[test]
fn resolve_key_rejects_bad_seeds() {
    // invalid digits
    assert!(resolve_key(&spec_with(Some(&"zz".repeat(32)), Some(false))).is_none());
    // odd length
    assert!(resolve_key(&spec_with(Some("abc"), Some(false))).is_none());
    // valid hex, wrong decoded length
    assert!(resolve_key(&spec_with(Some(&"ab".repeat(16)), Some(false))).is_none());
    assert!(resolve_key(&spec_with(Some(&"ab".repeat(33)), Some(false))).is_none());
}
