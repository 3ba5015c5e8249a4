//! The cryptographic primitives this library calls, each behind a small
//! trusted wrapper whose contract names what the outside crate computes.
use vstd::prelude::*;
use ed25519_dalek::{Signature, Signer, SigningKey, Verifier, VerifyingKey};
use rand::RngCore;

verus! {

/// The 32-byte keyed BLAKE3 digest of `data` under the 32-byte `key`.
pub uninterp spec fn blake3_keyed(key: Seq<u8>, data: Seq<u8>) -> Seq<u8>;

/// Relies on blake3::keyed_hash: the digest depends on the key and the input alone.
#[verifier::external_body]
pub(crate) fn keyed_hash(key: &[u8; 32], data: &[u8]) -> (r: [u8; 32])
    ensures
        r@ == blake3_keyed(key@, data@),
{
    *blake3::keyed_hash(key, data).as_bytes()
}

/// Relies on the `PartialEq<[u8; 32]>` impl of blake3::Hash: equality of the
/// two digests, compared in constant time.
#[verifier::external_body]
pub(crate) fn digests_equal(a: &[u8; 32], b: &[u8; 32]) -> (r: bool)
    ensures
        r == (a@ == b@),
{
    blake3::Hash::from_bytes(*a) == *b
}

/// The Ed25519 public key (compressed point) that the 32-byte secret seed expands to.
pub uninterp spec fn ed25519_public_of(seed: Seq<u8>) -> Seq<u8>;

/// The 64-byte Ed25519 signature of `msg` under the 32-byte secret seed.
pub uninterp spec fn ed25519_signature_of(seed: Seq<u8>, msg: Seq<u8>) -> Seq<u8>;

/// Whether 32 bytes decode to a curve point, that is to an Ed25519 public key.
pub uninterp spec fn ed25519_point_valid(public: Seq<u8>) -> bool;

/// Whether Ed25519 verification accepts the 64-byte `sig` of `msg` under `public`.
pub uninterp spec fn ed25519_accepts(public: Seq<u8>, msg: Seq<u8>, sig: Seq<u8>) -> bool;

/// Relies on SigningKey::from_bytes and SigningKey::verifying_key: the public
/// key depends on the seed alone, and, being the encoding of a point, decodes again.
#[verifier::external_body]
pub(crate) fn ed25519_public_key(seed: &[u8; 32]) -> (r: [u8; 32])
    ensures
        r@ == ed25519_public_of(seed@),
        ed25519_point_valid(r@),
{
    SigningKey::from_bytes(seed).verifying_key().to_bytes()
}

/// Relies on `Signer::sign` of SigningKey: RFC 8032 signing, which draws no
/// randomness, and whose signatures the seed's own public key accepts.
#[verifier::external_body]
pub(crate) fn ed25519_sign(seed: &[u8; 32], msg: &[u8]) -> (r: [u8; 64])
    ensures
        r@ == ed25519_signature_of(seed@, msg@),
        ed25519_accepts(ed25519_public_of(seed@), msg@, r@),
{
    SigningKey::from_bytes(seed).sign(msg).to_bytes()
}

/// Relies on VerifyingKey::from_bytes: it fails exactly when the bytes are no
/// point; which bytes decode depends on the bytes alone.
#[verifier::external_body]
pub(crate) fn ed25519_decodes(public: &[u8; 32]) -> (r: bool)
    ensures
        r == ed25519_point_valid(public@),
{
    VerifyingKey::from_bytes(public).is_ok()
}

/// Relies on `Verifier::verify` of VerifyingKey: the accept or reject decision
/// depends on the key, the message and the signature alone. The key is
/// decoded with VerifyingKey::from_bytes, which succeeds on a point.
#[verifier::external_body]
pub(crate) fn ed25519_verify(public: &[u8; 32], msg: &[u8], sig: &[u8; 64]) -> (r: bool)
    requires
        ed25519_point_valid(public@),
    ensures
        r == ed25519_accepts(public@, msg@, sig@),
{
    match VerifyingKey::from_bytes(public) {
        Ok(key) => key.verify(msg, &Signature::from_bytes(sig)).is_ok(),
        Err(_) => false,
    }
}

/// rand's error type, opaque here; a failed draw becomes `TextError::Entropy`.
#[verifier::external_type_specification]
#[verifier::external_body]
pub struct ExRandError(rand::Error);

/// Relies on `RngCore::try_fill_bytes` of rand's OsRng: 32 bytes from the
/// operating system's random source, or the error it reported.
#[verifier::external_body]
pub(crate) fn os_random_32() -> (r: Result<[u8; 32], rand::Error>) {
    let mut bytes = [0u8; 32];
    rand::rngs::OsRng.try_fill_bytes(&mut bytes)?;
    Ok(bytes)
}

} // verus!
