//! Trusted boundary to the Ed25519 signature scheme.
//!
//! The three uninterpreted names below stand for what the scheme
//! computes: the public key derived from a 32-byte secret seed, the
//! detached signature over a message, and the outcome of verification.
//! Signing and key derivation are deterministic functions of their byte
//! arguments (RFC 8032), so naming their results is sound. Everything
//! the library proves about tokens rests on the three contracts here.

use vstd::prelude::*;

verus! {

/// The 32-byte Ed25519 public key derived from a 32-byte secret seed.
pub uninterp spec fn ed25519_verifying_key_of(seed: Seq<u8>) -> Seq<u8>;

/// The 64-byte Ed25519 signature over `message` under the key with
/// secret seed `seed`.
pub uninterp spec fn ed25519_signature_of(seed: Seq<u8>, message: Seq<u8>) -> Seq<u8>;

/// Whether `signature` verifies over `message` under the public key
/// encoded by `public_key`; false whenever the key bytes do not decode
/// to a valid key.
pub uninterp spec fn ed25519_verifies(
    public_key: Seq<u8>,
    message: Seq<u8>,
    signature: Seq<u8>,
) -> bool;

/// Relies on `ed25519_dalek::SigningKey::verifying_key` (with
/// `from_bytes` and `to_bytes` converting at the boundary): the public
/// key is derived deterministically from the seed and is 32 bytes long.
#[verifier::external_body]
pub(crate) fn derive_verifying_key(seed: &[u8]) -> (r: Vec<u8>)
    requires
        seed@.len() == 32,
    ensures
        r@ == ed25519_verifying_key_of(seed@),
        r@.len() == 32,
{
    let mut bytes = [0u8; 32];
    bytes.copy_from_slice(seed);
    let key = ed25519_dalek::SigningKey::from_bytes(&bytes);
    key.verifying_key().to_bytes().to_vec()
}

/// Relies on `ed25519_dalek::SigningKey::sign` (via the `Signer` trait,
/// which never fails for this key type): Ed25519 signing is a
/// deterministic function of seed and message, produces 64 bytes, and
/// the produced signature verifies under the seed's own public key.
#[verifier::external_body]
pub(crate) fn sign_message(seed: &[u8], message: &[u8]) -> (r: Vec<u8>)
    requires
        seed@.len() == 32,
    ensures
        r@ == ed25519_signature_of(seed@, message@),
        r@.len() == 64,
        ed25519_verifies(ed25519_verifying_key_of(seed@), message@, r@),
{
    let mut bytes = [0u8; 32];
    bytes.copy_from_slice(seed);
    let key = ed25519_dalek::SigningKey::from_bytes(&bytes);
    ed25519_dalek::Signer::sign(&key, message).to_bytes().to_vec()
}

/// Relies on `ed25519_dalek::VerifyingKey::verify` (with `from_bytes`
/// parsing the key bytes and `Signature::from_bytes` converting the
/// signature): the outcome is a deterministic function of the three
/// byte arguments; key bytes that do not parse verify nothing.
#[verifier::external_body]
pub(crate) fn verify_signature(public_key: &[u8], message: &[u8], signature: &[u8]) -> (r: bool)
    requires
        public_key@.len() == 32,
        signature@.len() == 64,
    ensures
        r == ed25519_verifies(public_key@, message@, signature@),
{
    let mut key_bytes = [0u8; 32];
    key_bytes.copy_from_slice(public_key);
    let mut sig_bytes = [0u8; 64];
    sig_bytes.copy_from_slice(signature);
    match ed25519_dalek::VerifyingKey::from_bytes(&key_bytes) {
        Ok(key) => {
            let sig = ed25519_dalek::Signature::from_bytes(&sig_bytes);
            ed25519_dalek::Verifier::verify(&key, message, &sig).is_ok()
        },
        Err(_) => false,
    }
}

} // verus!
