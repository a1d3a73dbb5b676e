//! Auth tokens: a signed attestation binding an identity, a device and
//! an ordered capability set to an expiry.
//!
//! A token is *valid* at time `now` exactly when `expires_at > now`;
//! validity is recomputed on every call rather than stored. Signing
//! covers the canonical encoding of the token with the signature field
//! cleared, so mutating any other field after signing invalidates the
//! signature under verification.

use vstd::prelude::*;
use crate::crypto::{ed25519_signature_of, ed25519_verifies, ed25519_verifying_key_of};
use crate::encoding::signing_input;
use crate::identity::{cap_grants, caps_grant, Capability, SigningKey, VerifyingKey};
use crate::text::str_eq;
use crate::types::Timestamp;

verus! {

/// A capability-bearing token. The capability order is irrelevant to its
/// meaning and duplicates are permitted. The signature, when present,
/// must cover the canonical encoding of the other fields.
#[derive(Debug, Clone)]
pub struct AuthToken {
    pub user_id: String,
    pub device_id: String,
    pub capabilities: Vec<Capability>,
    pub signature: Option<Vec<u8>>,
    pub expires_at: Timestamp,
}

/// The canonical signing input of a token: its fields with the signature
/// cleared.
pub open spec fn token_signing_input(t: AuthToken) -> Seq<u8> {
    signing_input(t.user_id@, t.device_id@, t.capabilities@, t.expires_at)
}

/// What `verify` decides: a signature is present, has the scheme's
/// native 64-byte length, and verifies over the canonical signing input
/// under the given public key.
pub open spec fn token_verifies(t: AuthToken, public_key: Seq<u8>) -> bool {
    t.signature matches Some(s) && s@.len() == 64 && ed25519_verifies(
        public_key,
        token_signing_input(t),
        s@,
    )
}

impl AuthToken {
    /// A token is valid strictly before its expiry: equality is already
    /// invalid.
    pub fn is_valid(&self, now: Timestamp) -> (r: bool)
        ensures
            r == (self.expires_at > now),
    {
        self.expires_at > now
    }

    /// Whether the held capabilities satisfy `required`: an exact match,
    /// or — for the pattern-carrying kinds — a capability of the same
    /// kind whose pattern is the wildcard or the required target.
    pub fn has_capability(&self, required: &Capability) -> (r: bool)
        ensures
            r == caps_grant(self.capabilities@, *required),
    {
        let n = self.capabilities.len();
        let mut i: usize = 0;
        while i < n
            invariant
                n == self.capabilities@.len(),
                i <= n,
                forall|j: int| 0 <= j < i ==> !cap_grants(self.capabilities@[j], *required),
            decreases n - i,
        {
            let held = &self.capabilities[i];
            let granted = match (held, required) {
                (Capability::ReadMessages(p), Capability::ReadMessages(t)) => {
                    str_eq(p.as_str(), "*") || str_eq(p.as_str(), t.as_str())
                },
                (Capability::WriteMessages(p), Capability::WriteMessages(t)) => {
                    str_eq(p.as_str(), "*") || str_eq(p.as_str(), t.as_str())
                },
                (Capability::ManageGroup(p), Capability::ManageGroup(t)) => {
                    str_eq(p.as_str(), "*") || str_eq(p.as_str(), t.as_str())
                },
                (Capability::ManageDevice(p), Capability::ManageDevice(t)) => {
                    str_eq(p.as_str(), "*") || str_eq(p.as_str(), t.as_str())
                },
                (Capability::CreateInvites, Capability::CreateInvites) => true,
                (Capability::AdminAccess, Capability::AdminAccess) => true,
                _ => false,
            };
            if granted {
                return true;
            }
            i += 1;
        }
        false
    }

    /// Signs the canonical encoding of the token with the signature
    /// field cleared and stores the result; re-signing overwrites. The
    /// freshly signed token verifies under the key's public counterpart.
    pub fn sign(&mut self, signing_key: &SigningKey)
        requires
            signing_key.wf(),
        ensures
            final(self).user_id == old(self).user_id,
            final(self).device_id == old(self).device_id,
            final(self).capabilities == old(self).capabilities,
            final(self).expires_at == old(self).expires_at,
            final(self).signature matches Some(s) && s@ == ed25519_signature_of(
                signing_key.seed_bytes(),
                token_signing_input(*old(self)),
            ),
            token_verifies(*final(self), ed25519_verifying_key_of(signing_key.seed_bytes())),
    {
        let message = crate::encoding::signing_input_bytes(
            self.user_id.as_str(),
            self.device_id.as_str(),
            &self.capabilities,
            self.expires_at,
        );
        let signature = crate::crypto::sign_message(signing_key.seed_slice(), message.as_slice());
        self.signature = Some(signature);
    }

    /// Checks the stored signature against the canonical encoding of the
    /// token with the signature cleared. Absence of a signature, a
    /// signature of the wrong length, and a cryptographically invalid
    /// signature all yield `false`; no distinction is made.
    pub fn verify(&self, verifying_key: &VerifyingKey) -> (r: bool)
        requires
            verifying_key.wf(),
        ensures
            r == token_verifies(*self, verifying_key.key_bytes()),
    {
        match &self.signature {
            None => false,
            Some(signature) => {
                if signature.len() != 64 {
                    return false;
                }
                let message = crate::encoding::signing_input_bytes(
                    self.user_id.as_str(),
                    self.device_id.as_str(),
                    &self.capabilities,
                    self.expires_at,
                );
                crate::crypto::verify_signature(
                    verifying_key.byte_slice(),
                    message.as_slice(),
                    signature.as_slice(),
                )
            },
        }
    }
}

/// Signing commits to every field: two tokens with the same canonical
/// signing input agree on the user, the device, the expiry, and every
/// capability's kind and pattern. So mutating any field other than the
/// signature after signing changes the bytes the stored signature was
/// computed over; that a signature then fails to verify is the signature
/// scheme's own guarantee. The bounds only ask that every string fits
/// its 64-bit length prefix, which holds of anything an executable can
/// build.
pub proof fn lemma_signing_input_commits_to_fields(t1: AuthToken, t2: AuthToken)
    requires
        crate::encoding::str_fits(t1.user_id@),
        crate::encoding::str_fits(t1.device_id@),
        crate::encoding::caps_fit(t1.capabilities@),
        crate::encoding::str_fits(t2.user_id@),
        crate::encoding::str_fits(t2.device_id@),
        crate::encoding::caps_fit(t2.capabilities@),
        token_signing_input(t1) == token_signing_input(t2),
    ensures
        t1.user_id@ == t2.user_id@,
        t1.device_id@ == t2.device_id@,
        t1.expires_at == t2.expires_at,
        t1.capabilities@.len() == t2.capabilities@.len(),
        forall|i: int|
            0 <= i < t1.capabilities@.len() ==> crate::encoding::cap_like(
                #[trigger] t1.capabilities@[i],
                t2.capabilities@[i],
            ),
{
    crate::encoding::lemma_signing_input_injective(
        t1.user_id@,
        t1.device_id@,
        t1.capabilities@,
        t1.expires_at,
        t2.user_id@,
        t2.device_id@,
        t2.capabilities@,
        t2.expires_at,
    );
}

/// A stored signature whose byte count is not the scheme's native length
/// verifies under no public key at all.
pub proof fn lemma_wrong_length_signature_never_verifies(t: AuthToken, public_key: Seq<u8>)
    requires
        t.signature matches Some(s) && s@.len() != 64,
    ensures
        !token_verifies(t, public_key),
{
}

/// A token without a signature verifies under no public key at all.
pub proof fn lemma_unsigned_token_never_verifies(t: AuthToken, public_key: Seq<u8>)
    requires
        t.signature is None,
    ensures
        !token_verifies(t, public_key),
{
}

} // verus!
