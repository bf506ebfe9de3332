//! Deterministic key derivation for reproducible onion identities.
//!
//! A 32-byte seed is hashed with SHA-512 and the digest is clamped as the
//! Ed25519 secret-key convention demands; the 64-byte result is the expanded
//! secret key handed to hidden-service creation.

use vstd::prelude::*;

verus! {

/// The 64-byte SHA-512 digest of `data`; the digest depends on the bytes alone.
pub uninterp spec fn sha512_of(data: Seq<u8>) -> Seq<u8>;

/// Relies on sha2::Sha512::digest: the 64-byte digest is a function of the
/// input bytes alone.
#[verifier::external_body]
fn sha512(data: &[u8]) -> (r: Vec<u8>)
    ensures
        r@ == sha512_of(data@),
        r@.len() == 64,
{
    <sha2::Sha512 as sha2::Digest>::digest(data).to_vec()
}

/// Ed25519 secret-key clamping of a 64-byte digest: clear the bottom three
/// bits of byte 0, clear the top bit of byte 31, set bit 6 of byte 31.
pub open spec fn clamped(d: Seq<u8>) -> Seq<u8> {
    d.update(0, d[0] & 248).update(31, (d[31] & 127) | 64)
}

/// The expanded secret key a 32-byte seed derives: its clamped SHA-512 digest.
pub open spec fn expanded_secret_of(seed: Seq<u8>) -> Seq<u8> {
    clamped(sha512_of(seed))
}

/// Expands a seed into a 64-byte Ed25519-style expanded secret key.
///
/// Seeds of any length other than 32 bytes are rejected with `None`; the
/// result is otherwise a function of the seed alone, so the same seed yields
/// the same key on every run.
pub fn expand_seed_to_secret(seed: &[u8]) -> (r: Option<Vec<u8>>)
    ensures
        r is Some <==> seed@.len() == 32,
        r matches Some(v) ==> v@ == expanded_secret_of(seed@) && v@.len() == 64,
        r matches Some(v) ==> v@[0] & 0x07 == 0 && v@[31] & 0x80 == 0 && v@[31] & 0x40 == 0x40,
{
    if seed.len() != 32 {
        return None;
    }
    let mut h = sha512(seed);
    let b0 = h[0];
    h.set(0, b0 & 248);
    let b31 = h[31];
    h.set(31, (b31 & 127) | 64);
    proof {
        lemma_clamped_bits(sha512_of(seed@));
    }
    Some(h)
}

/// Every clamped 64-byte digest has the three bottom bits of byte 0 clear,
/// the top bit of byte 31 clear, and bit 6 of byte 31 set.
pub proof fn lemma_clamped_bits(d: Seq<u8>)
    requires
        d.len() == 64,
    ensures
        clamped(d).len() == 64,
        clamped(d)[0] & 0x07 == 0,
        clamped(d)[31] & 0x80 == 0,
        clamped(d)[31] & 0x40 == 0x40,
{
    let b0 = d[0];
    let b31 = d[31];
    assert((b0 & 248) & 0x07 == 0) by (bit_vector);
    assert(((b31 & 127) | 64) & 0x80 == 0) by (bit_vector);
    assert(((b31 & 127) | 64) & 0x40 == 0x40) by (bit_vector);
}

/// A character standing for a hexadecimal digit.
pub open spec fn is_hex_digit(c: char) -> bool {
    let n = c as int;
    (48 <= n && n <= 57) || (97 <= n && n <= 102) || (65 <= n && n <= 70)
}

/// The value of a hexadecimal digit character.
pub open spec fn hex_digit_value(c: char) -> int {
    let n = c as int;
    if 48 <= n && n <= 57 {
        n - 48
    } else if 97 <= n && n <= 102 {
        n - 87
    } else {
        n - 55
    }
}

/// A string that decodes as hexadecimal: even length, hex digits throughout.
pub open spec fn is_hex_string(s: Seq<char>) -> bool {
    s.len() % 2 == 0 && (forall|i: int| 0 <= i < s.len() ==> is_hex_digit(s[i]))
}

/// The bytes a hexadecimal string stands for, two digits to a byte.
pub open spec fn hex_decoded(s: Seq<char>) -> Seq<u8>
    decreases s.len(),
{
    if s.len() < 2 {
        Seq::empty()
    } else {
        seq![(hex_digit_value(s[0]) * 16 + hex_digit_value(s[1])) as u8] + hex_decoded(s.skip(2))
    }
}

/// Relies on hex::decode: an even-length string of hexadecimal digits decodes
/// to one byte per digit pair; any other string is refused.
#[verifier::external_body]
pub(crate) fn hex_decode(s: &str) -> (r: Option<Vec<u8>>)
    ensures
        r is Some <==> is_hex_string(s@),
        r matches Some(v) ==> v@ == hex_decoded(s@),
{
    hex::decode(s).ok()
}

} // verus!
