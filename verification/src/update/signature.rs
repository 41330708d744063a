//! Ed25519 signatures of update binaries: checking them against the
//! release key, and making them when a release is cut.
use vstd::prelude::*;

use crate::crypto::{
    ed25519_check_key, ed25519_key_error_text, ed25519_key_valid, ed25519_public_key,
    ed25519_public_key_of, ed25519_sign, ed25519_signature, ed25519_verifies, ed25519_verify,
    ed25519_verify_error_text, hex_decode, hex_decode_error_text, hex_decode_seq, hex_encode,
    hex_encode_seq, hex_roundtrip, os_random_bytes, sha256, sha256_digest,
};
use crate::error::Error;
use crate::text::{decimal, join_str, with_number};

verus! {

/// Checks Ed25519 signatures of update binaries against one verifying key.
#[derive(Debug)]
pub struct SignatureVerifier {
    public_key: Vec<u8>,
}

/// Why a verifying key is refused, if it is: it must be non-empty hex of
/// 32 bytes that name an Ed25519 key.
pub open spec fn key_refusal(public_key_hex: Seq<char>) -> Option<Seq<char>> {
    if public_key_hex.len() == 0 {
        Some("Public key cannot be empty"@)
    } else {
        match hex_decode_seq(public_key_hex) {
            None => Some("Invalid hex public key: "@ + hex_decode_error_text(public_key_hex)),
            Some(b) => if b.len() != 32 {
                Some("Public key must be 32 bytes, got "@ + decimal(b.len()))
            } else if !ed25519_key_valid(b) {
                Some("Invalid public key: "@ + ed25519_key_error_text(b))
            } else {
                None
            },
        }
    }
}

/// Why a signature of `message` (the SHA-256 digest of the data, or a
/// given hash) is refused under key `pk`, if it is; `prefix` starts the
/// text of a failed check.
pub open spec fn signature_refusal(
    pk: Seq<u8>,
    message: Seq<u8>,
    signature_hex: Seq<char>,
    prefix: Seq<char>,
) -> Option<Seq<char>> {
    match hex_decode_seq(signature_hex) {
        None => Some("Invalid hex signature: "@ + hex_decode_error_text(signature_hex)),
        Some(sig) => if sig.len() != 64 {
            Some("Signature must be 64 bytes, got "@ + decimal(sig.len()))
        } else if !ed25519_verifies(pk, message, sig) {
            Some(prefix + ed25519_verify_error_text(pk, message, sig))
        } else {
            None
        },
    }
}

/// Whether a hex signature of `data` verifies under key `pk`.
pub open spec fn accepts(pk: Seq<u8>, data: Seq<u8>, signature_hex: Seq<char>) -> bool {
    signature_refusal(pk, sha256(data), signature_hex, "Signature verification failed: "@) is None
}

impl SignatureVerifier {
    /// The verifying key's bytes.
    pub closed spec fn key(&self) -> Seq<u8> {
        self.public_key@
    }

    /// The key is 32 bytes that name an Ed25519 key.
    pub closed spec fn wf(&self) -> bool {
        self.public_key@.len() == 32 && ed25519_key_valid(self.public_key@)
    }

    /// A verifier for the hex-encoded verifying key; a key that is empty, not
    /// hex, not 32 bytes or no Ed25519 key is a configuration error.
    pub fn new(public_key_hex: &str) -> (r: Result<Self, Error>)
        ensures
            match r {
                Ok(v) => v.wf() && key_refusal(public_key_hex@) is None && hex_decode_seq(
                    public_key_hex@,
                ) == Some(v.key()),
                Err(e) => e is Config && key_refusal(public_key_hex@) == Some(e.spec_detail()),
            },
    {
        if public_key_hex.unicode_len() == 0 {
            return Err(Error::Config(String::from_str("Public key cannot be empty")));
        }
        let key_bytes = match hex_decode(public_key_hex) {
            Ok(b) => b,
            Err(e) => return Err(Error::Config(join_str("Invalid hex public key: ", e.as_str()))),
        };
        if key_bytes.len() != 32 {
            return Err(
                Error::Config(
                    with_number("Public key must be 32 bytes, got ", key_bytes.len() as u64),
                ),
            );
        }
        match ed25519_check_key(key_bytes.as_slice()) {
            Ok(()) => Ok(SignatureVerifier { public_key: key_bytes }),
            Err(e) => Err(Error::Config(join_str("Invalid public key: ", e.as_str()))),
        }
    }

    fn check(&self, message: &[u8], signature_hex: &str, prefix: &str) -> (r: Result<(), Error>)
        requires
            self.wf(),
        ensures
            match r {
                Ok(()) => signature_refusal(self.key(), message@, signature_hex@, prefix@) is None,
                Err(e) => e is Validation && signature_refusal(
                    self.key(),
                    message@,
                    signature_hex@,
                    prefix@,
                ) == Some(e.spec_detail()),
            },
    {
        let sig = match hex_decode(signature_hex) {
            Ok(b) => b,
            Err(e) => return Err(
                Error::Validation(join_str("Invalid hex signature: ", e.as_str())),
            ),
        };
        if sig.len() != 64 {
            return Err(
                Error::Validation(with_number("Signature must be 64 bytes, got ", sig.len() as u64)),
            );
        }
        match ed25519_verify(self.public_key.as_slice(), message, sig.as_slice()) {
            Ok(()) => Ok(()),
            Err(e) => Err(Error::Validation(join_str(prefix, e.as_str()))),
        }
    }

    /// Checks a hex signature of the SHA-256 digest of `data`.
    pub fn verify(&self, data: &[u8], signature_hex: &str) -> (r: Result<(), Error>)
        requires
            self.wf(),
        ensures
            match r {
                Ok(()) => accepts(self.key(), data@, signature_hex@),
                Err(e) => e is Validation && signature_refusal(
                    self.key(),
                    sha256(data@),
                    signature_hex@,
                    "Signature verification failed: "@,
                ) == Some(e.spec_detail()),
            },
    {
        let hash = sha256_digest(data);
        self.check(hash.as_slice(), signature_hex, "Signature verification failed: ")
    }

    /// Checks a hex signature of a given hash (no digest is taken).
    pub fn verify_hash(&self, hash: &[u8], signature_hex: &str) -> (r: Result<(), Error>)
        requires
            self.wf(),
        ensures
            match r {
                Ok(()) => signature_refusal(
                    self.key(),
                    hash@,
                    signature_hex@,
                    "Hash signature verification failed: "@,
                ) is None,
                Err(e) => e is Validation && signature_refusal(
                    self.key(),
                    hash@,
                    signature_hex@,
                    "Hash signature verification failed: "@,
                ) == Some(e.spec_detail()),
            },
    {
        self.check(hash, signature_hex, "Hash signature verification failed: ")
    }

    /// The verifying key, hex encoded.
    pub fn public_key_hex(&self) -> (r: String)
        ensures
            r@ == hex_encode_seq(self.key()),
    {
        hex_encode(self.public_key.as_slice())
    }
}

// ---------------------------------------------------------------------------
// Making signatures
// ---------------------------------------------------------------------------

/// A fresh Ed25519 key pair from the operating system's randomness, as
/// `(private_key_hex, public_key_hex)`: the private key is 32 random bytes
/// and the public key the verifying key that belongs to it.
pub fn generate_keypair() -> (r: (String, String))
    ensures
        r.0@.len() == 64,
        r.1@.len() == 64,
        exists|sk: Seq<u8>|
            sk.len() == 32 && #[trigger] hex_encode_seq(sk) == r.0@ && r.1@ == hex_encode_seq(
                ed25519_public_key(sk),
            ) && ed25519_key_valid(ed25519_public_key(sk)),
{
    let seed = os_random_bytes(32);
    let public = ed25519_public_key_of(seed.as_slice());
    let r = (hex_encode(seed.as_slice()), hex_encode(public.as_slice()));
    assert(hex_encode_seq(seed@) == r.0@);
    r
}

/// Why a private key is refused for signing, if it is: it must be hex of
/// 32 bytes.
pub open spec fn signing_key_refusal(private_key_hex: Seq<char>) -> Option<Seq<char>> {
    match hex_decode_seq(private_key_hex) {
        None => Some("Invalid hex private key: "@ + hex_decode_error_text(private_key_hex)),
        Some(b) => if b.len() != 32 {
            Some("Private key must be 32 bytes, got "@ + decimal(b.len()))
        } else {
            None
        },
    }
}

/// Signs the SHA-256 digest of `data` with a hex private key and gives the
/// hex signature.  What it gives is accepted by a verifier of the matching
/// public key.
pub fn sign_data(data: &[u8], private_key_hex: &str) -> (r: Result<String, Error>)
    ensures
        match r {
            Ok(s) => {
                &&& signing_key_refusal(private_key_hex@) is None
                &&& hex_decode_seq(private_key_hex@) matches Some(sk)
                &&& s@ == hex_encode_seq(ed25519_signature(sk, sha256(data@)))
                &&& accepts(ed25519_public_key(sk), data@, s@)
            },
            Err(e) => e is Config && signing_key_refusal(private_key_hex@) == Some(
                e.spec_detail(),
            ),
        },
{
    let key_bytes = match hex_decode(private_key_hex) {
        Ok(b) => b,
        Err(e) => return Err(Error::Config(join_str("Invalid hex private key: ", e.as_str()))),
    };
    if key_bytes.len() != 32 {
        return Err(
            Error::Config(with_number("Private key must be 32 bytes, got ", key_bytes.len() as u64)),
        );
    }
    let hash = sha256_digest(data);
    let sig = ed25519_sign(key_bytes.as_slice(), hash.as_slice());
    let s = hex_encode(sig.as_slice());
    proof {
        hex_roundtrip(sig@);
    }
    Ok(s)
}

} // verus!
