//! Hex encoding, SHA-256, Ed25519 and the operating system's random source,
//! reached through the `hex`, `sha2`, `ed25519-dalek` and `rand_core` crates.
use vstd::prelude::*;

use ed25519_dalek::{Signer, Verifier};
use rand_core::RngCore;
use sha2::Digest;

verus! {

// ---------------------------------------------------------------------------
// Hex
// ---------------------------------------------------------------------------

/// Lower-case hex digit for a value below sixteen.
pub open spec fn hex_digit(v: nat) -> char {
    if v < 10 {
        ((v + 48) as u32) as char
    } else {
        ((v + 87) as u32) as char
    }
}

/// Lower-case hex encoding: two digits per byte, high nibble first.
pub open spec fn hex_encode_seq(b: Seq<u8>) -> Seq<char> {
    Seq::new(
        2 * b.len(),
        |i: int|
            if i % 2 == 0 {
                hex_digit((b[i / 2] / 16) as nat)
            } else {
                hex_digit((b[i / 2] % 16) as nat)
            },
    )
}

/// A hex digit of either case.
pub open spec fn is_hex_char(c: char) -> bool {
    ('0' <= c && c <= '9') || ('a' <= c && c <= 'f') || ('A' <= c && c <= 'F')
}

/// The value of a hex digit.
pub open spec fn hex_val(c: char) -> nat {
    if '0' <= c && c <= '9' {
        (c as int - 48) as nat
    } else if 'a' <= c && c <= 'f' {
        (c as int - 87) as nat
    } else {
        (c as int - 55) as nat
    }
}

/// What `hex::decode` gives for a text: bytes when the text has an even
/// number of characters that are all hex digits, and nothing otherwise.
pub open spec fn hex_decode_seq(s: Seq<char>) -> Option<Seq<u8>> {
    if s.len() % 2 == 0 && forall|i: int| 0 <= i < s.len() ==> is_hex_char(#[trigger] s[i]) {
        Some(Seq::new(s.len() / 2, |i: int| (hex_val(s[2 * i]) * 16 + hex_val(s[2 * i + 1])) as u8))
    } else {
        None
    }
}

/// `hex::encode`: lower-case hex, two digits per byte.
#[verifier::external_body]
pub(crate) fn hex_encode(data: &[u8]) -> (s: String)
    ensures
        s@ == hex_encode_seq(data@),
{
    hex::encode(data)
}

/// The text (`Display`) of the error `hex::decode` gives for a text it
/// refuses.
pub uninterp spec fn hex_decode_error_text(s: Seq<char>) -> Seq<char>;

/// `hex::decode` of a text: succeeds exactly when the text has an even
/// length and only hex digits, and then gives the bytes they spell; a
/// refusal comes with the text of the crate's error.
#[verifier::external_body]
pub(crate) fn hex_decode(s: &str) -> (r: Result<Vec<u8>, String>)
    ensures
        match r {
            Ok(v) => hex_decode_seq(s@) == Some(v@),
            Err(e) => hex_decode_seq(s@) is None && e@ == hex_decode_error_text(s@),
        },
{
    match hex::decode(s) {
        Ok(v) => Ok(v),
        Err(e) => Err(e.to_string()),
    }
}

proof fn lemma_hex_digit(v: nat)
    requires
        v < 16,
    ensures
        is_hex_char(hex_digit(v)),
        hex_val(hex_digit(v)) == v,
{
    if v < 10 {
        assert(hex_digit(v) as int == v + 48);
    } else {
        assert(hex_digit(v) as int == v + 87);
    }
}

/// Decoding what `hex_encode` writes gives the bytes back.
pub proof fn hex_roundtrip(b: Seq<u8>)
    ensures
        hex_decode_seq(hex_encode_seq(b)) == Some(b),
{
    let s = hex_encode_seq(b);
    assert forall|i: int| 0 <= i < s.len() implies is_hex_char(#[trigger] s[i]) by {
        if i % 2 == 0 {
            lemma_hex_digit((b[i / 2] / 16) as nat);
        } else {
            lemma_hex_digit((b[i / 2] % 16) as nat);
        }
    }
    assert(s.len() % 2 == 0);
    let d = Seq::new(s.len() / 2, |i: int| (hex_val(s[2 * i]) * 16 + hex_val(s[2 * i + 1])) as u8);
    assert forall|i: int| 0 <= i < b.len() implies d[i] == b[i] by {
        lemma_hex_digit((b[i] / 16) as nat);
        lemma_hex_digit((b[i] % 16) as nat);
        assert((2 * i) % 2 == 0);
        assert((2 * i + 1) % 2 == 1);
        assert((2 * i) / 2 == i);
        assert((2 * i + 1) / 2 == i);
        assert(s[2 * i] == hex_digit((b[i] / 16) as nat));
        assert(s[2 * i + 1] == hex_digit((b[i] % 16) as nat));
        assert((b[i] / 16) * 16 + b[i] % 16 == b[i]);
    }
    assert(d =~= b);
}

// ---------------------------------------------------------------------------
// SHA-256
// ---------------------------------------------------------------------------

/// The SHA-256 digest of a byte sequence.
pub uninterp spec fn sha256(data: Seq<u8>) -> Seq<u8>;

/// `sha2::Sha256::digest`: the 32-byte digest of the data.
#[verifier::external_body]
pub(crate) fn sha256_digest(data: &[u8]) -> (d: Vec<u8>)
    ensures
        d@ == sha256(data@),
        d@.len() == 32,
{
    sha2::Sha256::digest(data).to_vec()
}

// ---------------------------------------------------------------------------
// Ed25519
// ---------------------------------------------------------------------------

/// Whether 32 bytes decode to an Ed25519 verifying key
/// (`VerifyingKey::from_bytes` succeeds).
pub uninterp spec fn ed25519_key_valid(pk: Seq<u8>) -> bool;

/// Whether `sig` is a valid Ed25519 signature of `msg` under `pk`
/// (`Verifier::verify` of `ed25519_dalek::VerifyingKey`).
pub uninterp spec fn ed25519_verifies(pk: Seq<u8>, msg: Seq<u8>, sig: Seq<u8>) -> bool;

/// The verifying key that belongs to a 32-byte secret key
/// (`SigningKey::verifying_key`).
pub uninterp spec fn ed25519_public_key(sk: Seq<u8>) -> Seq<u8>;

/// The Ed25519 signature of `msg` under a 32-byte secret key
/// (`Signer::sign` of `ed25519_dalek::SigningKey`).
pub uninterp spec fn ed25519_signature(sk: Seq<u8>, msg: Seq<u8>) -> Seq<u8>;

/// The text (`Display`) of the error `VerifyingKey::from_bytes` gives for
/// 32 bytes that name no key.
pub uninterp spec fn ed25519_key_error_text(pk: Seq<u8>) -> Seq<char>;

/// The text (`Display`) of the error `Verifier::verify` gives when a
/// signature does not verify.
pub uninterp spec fn ed25519_verify_error_text(pk: Seq<u8>, msg: Seq<u8>, sig: Seq<u8>) -> Seq<char>;

/// `VerifyingKey::from_bytes`: succeeds exactly when the bytes name a key;
/// a refusal comes with the text of the crate's error.
#[verifier::external_body]
pub(crate) fn ed25519_check_key(pk: &[u8]) -> (r: Result<(), String>)
    requires
        pk@.len() == 32,
    ensures
        match r {
            Ok(()) => ed25519_key_valid(pk@),
            Err(e) => !ed25519_key_valid(pk@) && e@ == ed25519_key_error_text(pk@),
        },
{
    let bytes: [u8; 32] = pk.try_into().unwrap();
    match ed25519_dalek::VerifyingKey::from_bytes(&bytes) {
        Ok(_) => Ok(()),
        Err(e) => Err(e.to_string()),
    }
}

/// `Verifier::verify` of the key that `VerifyingKey::from_bytes` decodes
/// from `pk` on `msg` and the 64-byte signature `sig` (read by
/// `Signature::from_bytes`): succeeds exactly when the signature verifies;
/// a refusal comes with the text of the crate's error.
#[verifier::external_body]
pub(crate) fn ed25519_verify(pk: &[u8], msg: &[u8], sig: &[u8]) -> (r: Result<(), String>)
    requires
        pk@.len() == 32,
        ed25519_key_valid(pk@),
        sig@.len() == 64,
    ensures
        match r {
            Ok(()) => ed25519_verifies(pk@, msg@, sig@),
            Err(e) => !ed25519_verifies(pk@, msg@, sig@) && e@ == ed25519_verify_error_text(
                pk@,
                msg@,
                sig@,
            ),
        },
{
    let key_bytes: [u8; 32] = pk.try_into().unwrap();
    let sig_bytes: [u8; 64] = sig.try_into().unwrap();
    let key = ed25519_dalek::VerifyingKey::from_bytes(&key_bytes).unwrap();
    match key.verify(msg, &ed25519_dalek::Signature::from_bytes(&sig_bytes)) {
        Ok(()) => Ok(()),
        Err(e) => Err(e.to_string()),
    }
}

/// `SigningKey::verifying_key` of the key built by `SigningKey::from_bytes`:
/// 32 bytes that decode to a verifying key.
#[verifier::external_body]
pub(crate) fn ed25519_public_key_of(sk: &[u8]) -> (pk: Vec<u8>)
    requires
        sk@.len() == 32,
    ensures
        pk@ == ed25519_public_key(sk@),
        pk@.len() == 32,
        ed25519_key_valid(pk@),
{
    let bytes: [u8; 32] = sk.try_into().unwrap();
    ed25519_dalek::SigningKey::from_bytes(&bytes).verifying_key().to_bytes().to_vec()
}

/// `Signer::sign` with the key built by `SigningKey::from_bytes`: a 64-byte
/// signature that verifies under the key's own verifying key.
#[verifier::external_body]
pub(crate) fn ed25519_sign(sk: &[u8], msg: &[u8]) -> (sig: Vec<u8>)
    requires
        sk@.len() == 32,
    ensures
        sig@ == ed25519_signature(sk@, msg@),
        sig@.len() == 64,
        ed25519_verifies(ed25519_public_key(sk@), msg@, sig@),
{
    let bytes: [u8; 32] = sk.try_into().unwrap();
    ed25519_dalek::SigningKey::from_bytes(&bytes).sign(msg).to_bytes().to_vec()
}

// ---------------------------------------------------------------------------
// Randomness
// ---------------------------------------------------------------------------

/// `RngCore::fill_bytes` of `rand_core::OsRng` on `n` zero bytes: `n` bytes
/// from the operating system, of which nothing more is claimed.  The crate
/// panics when the operating system cannot supply randomness.
#[verifier::external_body]
pub(crate) fn os_random_bytes(n: usize) -> (r: Vec<u8>)
    ensures
        r@.len() == n,
{
    let mut buf = vec![0u8; n];
    rand_core::OsRng.fill_bytes(&mut buf);
    buf
}

} // verus!
