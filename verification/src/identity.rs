//! Identities, devices, keys and the capability model.
//!
//! A capability is a typed permission grant, four kinds of which carry a
//! target pattern; the pattern `"*"` is a reserved wildcard meaning "any
//! target of this kind". Matching is kind-isolated: a pattern never
//! satisfies a requirement of another kind.

use vstd::prelude::*;
use crate::crypto::ed25519_verifying_key_of;
use crate::types::Timestamp;

verus! {

/// A public identity: a stable random identifier bound to a public key.
/// The private key is never stored inside the identity.
#[derive(Debug, Clone)]
pub struct Identity {
    pub user_id: String,
    pub public_key: Vec<u8>,
    pub signature: Vec<u8>,
    pub created_at: Timestamp,
}

/// A secondary signing context bound to a subset of capabilities.
#[derive(Debug, Clone)]
pub struct Device {
    pub device_id: String,
    pub public_key: Vec<u8>,
    pub signature: Vec<u8>,
    pub capabilities: Vec<Capability>,
}

/// A typed permission grant. The four pattern-carrying kinds are scoped
/// to a target string; `CreateInvites` and `AdminAccess` carry none.
#[derive(Debug, Clone, PartialEq, Eq, Hash)]
pub enum Capability {
    ReadMessages(String),
    WriteMessages(String),
    ManageGroup(String),
    ManageDevice(String),
    CreateInvites,
    AdminAccess,
}

/// Whether a pattern grants a target: either the reserved wildcard or an
/// exact match.
pub open spec fn pattern_grants(pattern: Seq<char>, target: Seq<char>) -> bool {
    pattern == "*"@ || pattern == target
}

/// Whether a held capability satisfies a required one. Matching is
/// kind-isolated; the kinds without a pattern match only themselves.
pub open spec fn cap_grants(held: Capability, required: Capability) -> bool {
    match required {
        Capability::ReadMessages(t) => held matches Capability::ReadMessages(p)
            && pattern_grants(p@, t@),
        Capability::WriteMessages(t) => held matches Capability::WriteMessages(p)
            && pattern_grants(p@, t@),
        Capability::ManageGroup(t) => held matches Capability::ManageGroup(p)
            && pattern_grants(p@, t@),
        Capability::ManageDevice(t) => held matches Capability::ManageDevice(p)
            && pattern_grants(p@, t@),
        Capability::CreateInvites => held is CreateInvites,
        Capability::AdminAccess => held is AdminAccess,
    }
}

/// Whether some held capability satisfies the required one.
pub open spec fn caps_grant(held: Seq<Capability>, required: Capability) -> bool {
    exists|i: int| 0 <= i < held.len() && cap_grants(held[i], required)
}

/// Whether some held capability grants reading of `target`.
pub open spec fn grants_read(held: Seq<Capability>, target: Seq<char>) -> bool {
    exists|i: int|
        0 <= i < held.len() && ((#[trigger] held[i]) matches Capability::ReadMessages(p)
            && pattern_grants(p@, target))
}

/// Whether some held capability grants writing to `target`.
pub open spec fn grants_write(held: Seq<Capability>, target: Seq<char>) -> bool {
    exists|i: int|
        0 <= i < held.len() && ((#[trigger] held[i]) matches Capability::WriteMessages(p)
            && pattern_grants(p@, target))
}

/// Whether some held capability grants management of group `target`.
pub open spec fn grants_manage_group(held: Seq<Capability>, target: Seq<char>) -> bool {
    exists|i: int|
        0 <= i < held.len() && ((#[trigger] held[i]) matches Capability::ManageGroup(p)
            && pattern_grants(p@, target))
}

/// Whether some held capability grants device management for `target`.
pub open spec fn grants_manage_device(held: Seq<Capability>, target: Seq<char>) -> bool {
    exists|i: int|
        0 <= i < held.len() && ((#[trigger] held[i]) matches Capability::ManageDevice(p)
            && pattern_grants(p@, target))
}

/// Capability matching inspects only the views of the pattern strings,
/// so `caps_grant` coincides with the kind-specific predicates over the
/// required target's characters.
pub proof fn lemma_caps_grant_by_kind(held: Seq<Capability>, required: Capability)
    ensures
        required matches Capability::ReadMessages(t) ==> caps_grant(held, required)
            == grants_read(held, t@),
        required matches Capability::WriteMessages(t) ==> caps_grant(held, required)
            == grants_write(held, t@),
        required matches Capability::ManageGroup(t) ==> caps_grant(held, required)
            == grants_manage_group(held, t@),
        required matches Capability::ManageDevice(t) ==> caps_grant(held, required)
            == grants_manage_device(held, t@),
{
}

/// Kind isolation: a capability set holding no read capability grants no
/// read target at all. In particular, a token holding only a write
/// wildcard fails every read requirement.
pub proof fn lemma_kind_isolation(held: Seq<Capability>, target: Seq<char>)
    requires
        forall|i: int| 0 <= i < held.len() ==> !((#[trigger] held[i]) is ReadMessages),
    ensures
        !grants_read(held, target),
{
}

/// Wildcard: a capability set holding a read wildcard grants every read
/// target.
pub proof fn lemma_wildcard_grants_all(held: Seq<Capability>, target: Seq<char>)
    requires
        exists|i: int|
            0 <= i < held.len() && ((#[trigger] held[i]) matches Capability::ReadMessages(p)
                && p@ == "*"@),
    ensures
        grants_read(held, target),
{
}

/// A capability set holding only write capabilities fails every read
/// requirement — in particular, a write wildcard never satisfies one.
pub proof fn lemma_write_only_never_reads(held: Seq<Capability>, required: Capability)
    requires
        forall|i: int| 0 <= i < held.len() ==> (#[trigger] held[i]) is WriteMessages,
        required is ReadMessages,
    ensures
        !caps_grant(held, required),
{
}

/// A capability set holding a read wildcard satisfies every read
/// requirement, whatever its target.
pub proof fn lemma_read_wildcard_grants_any_read(held: Seq<Capability>, required: Capability)
    requires
        exists|i: int|
            0 <= i < held.len() && ((#[trigger] held[i]) matches Capability::ReadMessages(p)
                && p@ == "*"@),
        required is ReadMessages,
    ensures
        caps_grant(held, required),
{
    lemma_caps_grant_by_kind(held, required);
    match required {
        Capability::ReadMessages(t) => lemma_wildcard_grants_all(held, t@),
        _ => (),
    }
}

/// The private half of an identity's keypair: the 32-byte Ed25519 seed.
/// It is owned exclusively by the caller of `generate_identity`.
pub struct SigningKey {
    seed: Vec<u8>,
}

impl SigningKey {
    /// The secret seed bytes, for contracts only.
    pub closed spec fn seed_bytes(&self) -> Seq<u8> {
        self.seed@
    }

    /// Well-formedness: the seed has the scheme's native length.
    pub closed spec fn wf(&self) -> bool {
        self.seed@.len() == 32
    }

    pub(crate) fn seed_slice(&self) -> (r: &[u8])
        ensures
            r@ == self.seed_bytes(),
            self.wf() ==> r@.len() == 32,
    {
        self.seed.as_slice()
    }
}

/// The public half of a keypair, as 32 raw bytes.
pub struct VerifyingKey {
    bytes: Vec<u8>,
}

impl VerifyingKey {
    /// The public key bytes, for contracts only.
    pub closed spec fn key_bytes(&self) -> Seq<u8> {
        self.bytes@
    }

    /// Well-formedness: the key has the scheme's native length.
    pub closed spec fn wf(&self) -> bool {
        self.bytes@.len() == 32
    }

    /// Wraps raw public-key bytes; refuses any length other than the
    /// scheme's native 32 bytes.
    pub fn from_bytes(bytes: Vec<u8>) -> (r: Option<VerifyingKey>)
        ensures
            r is Some <==> bytes@.len() == 32,
            r matches Some(k) ==> k.wf() && k.key_bytes() == bytes@,
    {
        if bytes.len() == 32 {
            Some(VerifyingKey { bytes })
        } else {
            None
        }
    }

    pub(crate) fn byte_slice(&self) -> (r: &[u8])
        ensures
            r@ == self.key_bytes(),
            self.wf() ==> r@.len() == 32,
    {
        self.bytes.as_slice()
    }
}

/// Relies on `rand::RngCore::fill_bytes` on `rand::rngs::OsRng`: fills
/// the buffer from the operating system's secure random source; nothing
/// is assumed of the values beyond the length.
#[verifier::external_body]
fn random_seed() -> (r: Vec<u8>)
    ensures
        r@.len() == 32,
{
    let mut bytes = [0u8; 32];
    rand::RngCore::fill_bytes(&mut rand::rngs::OsRng, &mut bytes);
    bytes.to_vec()
}

/// Relies on `uuid::Uuid::new_v4` and its hyphenated `Display` form: a
/// random version-4 UUID rendered as 36 characters; the value is random,
/// so nothing else is assumed.
#[verifier::external_body]
fn random_uuid_string() -> (r: String)
    ensures
        r@.len() == 36,
{
    uuid::Uuid::new_v4().to_string()
}

/// Relies on `chrono::Utc::now`: seconds since the Unix epoch on the
/// local clock; the value depends on the clock, so nothing is assumed.
#[verifier::external_body]
fn now_unix_seconds() -> (r: i64) {
    chrono::Utc::now().timestamp()
}

impl Identity {
    /// Produces a fresh identity and its private signing key. The
    /// identifier is random rather than key-derived, so identities never
    /// collide and a compromised key does not trace back to one.
    pub fn generate_identity() -> (r: (Identity, SigningKey))
        ensures
            r.1.wf(),
            r.0.public_key@ == ed25519_verifying_key_of(r.1.seed_bytes()),
            r.0.public_key@.len() == 32,
            r.0.signature@.len() == 0,
            r.0.user_id@.len() == 36,
    {
        let seed = random_seed();
        let public_key = crate::crypto::derive_verifying_key(seed.as_slice());
        let identity = Identity {
            user_id: random_uuid_string(),
            public_key,
            signature: Vec::new(),
            created_at: now_unix_seconds(),
        };
        (identity, SigningKey { seed })
    }
}

} // verus!
