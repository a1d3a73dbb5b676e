//! The access-control service: pure decisions mapping a (token,
//! resource, time) triple to an allow/deny outcome with a specific
//! denial reason.
//!
//! Expiry is checked before anything else, and for creation the identity
//! is checked before any capability, so impersonation attempts never
//! reach the capability branch. Path-based access collapses denial and
//! malformed input to a plain `false`; entry-based access reports a
//! reason.

use vstd::prelude::*;
use crate::auth::AuthToken;
use crate::entries::GardenEntry;
use crate::identity::{
    grants_manage_device, grants_manage_group, grants_read, grants_write,
    lemma_caps_grant_by_kind, Capability,
};
use crate::path::{seg_views, split_slash, valid_path};
use crate::text::{concat2, concat3, str_eq};
use crate::types::{Path, Timestamp};

verus! {

/// Why an authorization request was denied.
#[derive(Debug, Clone, Copy, PartialEq, Eq, Structural)]
pub enum AuthError {
    TokenExpired,
    InsufficientCapabilities,
    IdentityMismatch,
}

/// The read target protecting another user's profile.
pub open spec fn profile_read_target(user_id: Seq<char>) -> Seq<char> {
    "profile:"@ + user_id
}

/// The read target protecting a group's messages.
pub open spec fn group_read_target(group_id: Seq<char>) -> Seq<char> {
    "group:"@ + group_id
}

/// The write target protecting a group's messages.
pub open spec fn group_write_target(group_id: Seq<char>) -> Seq<char> {
    "group:"@ + group_id
}

/// What `can_access_entry` decides, per entry kind.
pub open spec fn spec_can_access_entry(t: AuthToken, e: GardenEntry, now: Timestamp) -> Result<
    bool,
    AuthError,
> {
    if !(t.expires_at > now) {
        Err(AuthError::TokenExpired)
    } else {
        match e {
            GardenEntry::DirectMessage { sender_id, recipient_id, .. } => {
                if t.user_id@ == sender_id@ || t.user_id@ == recipient_id@ {
                    Ok(true)
                } else if grants_read(t.capabilities@, recipient_id@) {
                    Ok(true)
                } else {
                    Err(AuthError::InsufficientCapabilities)
                }
            },
            GardenEntry::GroupMessage { group_id, .. } => {
                if grants_read(t.capabilities@, group_read_target(group_id@))
                    || grants_manage_group(t.capabilities@, group_id@) {
                    Ok(true)
                } else {
                    Err(AuthError::InsufficientCapabilities)
                }
            },
            GardenEntry::Profile { user_id, .. } => {
                if t.user_id@ == user_id@ || grants_read(
                    t.capabilities@,
                    profile_read_target(user_id@),
                ) {
                    Ok(true)
                } else {
                    Err(AuthError::InsufficientCapabilities)
                }
            },
            GardenEntry::GroupMeta { group_id, .. } => {
                if grants_manage_group(t.capabilities@, group_id@) {
                    Ok(true)
                } else {
                    Err(AuthError::InsufficientCapabilities)
                }
            },
            GardenEntry::GroupMember { group_id, .. } => {
                if grants_manage_group(t.capabilities@, group_id@) {
                    Ok(true)
                } else {
                    Err(AuthError::InsufficientCapabilities)
                }
            },
            _ => Ok(true),
        }
    }
}

/// What `can_create_entry` decides, per entry kind. The identity check
/// precedes the capability check.
pub open spec fn spec_can_create_entry(t: AuthToken, e: GardenEntry, now: Timestamp) -> Result<
    bool,
    AuthError,
> {
    if !(t.expires_at > now) {
        Err(AuthError::TokenExpired)
    } else {
        match e {
            GardenEntry::DirectMessage { sender_id, .. } => {
                if t.user_id@ != sender_id@ {
                    Err(AuthError::IdentityMismatch)
                } else if grants_write(t.capabilities@, "inbox"@) {
                    Ok(true)
                } else {
                    Err(AuthError::InsufficientCapabilities)
                }
            },
            GardenEntry::GroupMessage { group_id, sender_id, .. } => {
                if t.user_id@ != sender_id@ {
                    Err(AuthError::IdentityMismatch)
                } else if grants_write(t.capabilities@, group_write_target(group_id@)) {
                    Ok(true)
                } else {
                    Err(AuthError::InsufficientCapabilities)
                }
            },
            GardenEntry::GroupMeta { group_id, .. } => {
                if grants_manage_group(t.capabilities@, group_id@) {
                    Ok(true)
                } else {
                    Err(AuthError::InsufficientCapabilities)
                }
            },
            GardenEntry::GroupMember { group_id, .. } => {
                if grants_manage_group(t.capabilities@, group_id@) {
                    Ok(true)
                } else {
                    Err(AuthError::InsufficientCapabilities)
                }
            },
            _ => Ok(true),
        }
    }
}

/// The broad read target over a user's whole profile.
pub open spec fn profile_path_target(user_id: Seq<char>) -> Seq<char> {
    "profiles/"@ + user_id
}

/// The narrower read target over a user's public profile sub-path.
pub open spec fn profile_public_path_target(user_id: Seq<char>) -> Seq<char> {
    "profiles/"@ + user_id + "/public"@
}

/// The read target over a conversation between two users.
pub open spec fn message_path_target(sender_id: Seq<char>, recipient_id: Seq<char>) -> Seq<char> {
    "messages/"@ + sender_id + "/"@ + recipient_id
}

/// The read target over a group's message sub-path.
pub open spec fn group_path_target(group_id: Seq<char>) -> Seq<char> {
    "groups/"@ + group_id
}

/// The dispatch of `can_access_path` on the split segments of a path
/// already known to be valid and at least two segments long.
pub open spec fn spec_path_decision(t: AuthToken, segs: Seq<Seq<char>>) -> bool
    recommends
        segs.len() >= 2,
{
    if segs[0] == "profiles"@ {
        ||| t.user_id@ == segs[1]
        ||| if segs.len() >= 3 && segs[2] == "public"@ {
            grants_read(t.capabilities@, profile_public_path_target(segs[1])) || grants_read(
                t.capabilities@,
                profile_path_target(segs[1]),
            )
        } else {
            grants_read(t.capabilities@, profile_path_target(segs[1]))
        }
    } else if segs[0] == "messages"@ {
        &&& segs.len() >= 4
        &&& {
            ||| t.user_id@ == segs[1]
            ||| t.user_id@ == segs[2]
            ||| grants_read(t.capabilities@, message_path_target(segs[1], segs[2]))
        }
    } else if segs[0] == "groups"@ {
        if segs.len() >= 3 && segs[2] == "messages"@ {
            grants_read(t.capabilities@, group_path_target(segs[1]))
        } else {
            grants_manage_group(t.capabilities@, segs[1])
        }
    } else if segs[0] == "devices"@ {
        t.user_id@ == segs[1] || grants_manage_device(t.capabilities@, segs[1])
    } else {
        false
    }
}

/// What `can_access_path` decides: the token is unexpired, the path is
/// well-formed with at least two segments, and the kind-specific rule
/// over the segments holds.
pub open spec fn spec_can_access_path(t: AuthToken, path: Seq<char>, now: Timestamp) -> bool {
    &&& t.expires_at > now
    &&& valid_path(path)
    &&& split_slash(path).len() >= 2
    &&& spec_path_decision(t, split_slash(path))
}

/// The access-control service. It never mutates the token or the entry;
/// both are immutable snapshots per call, and every decision is a pure
/// function of (token, resource, now).
pub struct AccessControlService;

impl AccessControlService {
    /// Decides whether the token may read the entry at time `now`:
    /// expiry first, then the entry-kind rule; `TokenExpired` or
    /// `InsufficientCapabilities` on denial.
    pub fn can_access_entry(token: &AuthToken, entry: &GardenEntry, now: Timestamp) -> (r: Result<
        bool,
        AuthError,
    >)
        ensures
            r == spec_can_access_entry(*token, *entry, now),
    {
        if !token.is_valid(now) {
            return Err(AuthError::TokenExpired);
        }
        match entry {
            GardenEntry::DirectMessage { sender_id, recipient_id, .. } => {
                if str_eq(token.user_id.as_str(), sender_id.as_str()) || str_eq(
                    token.user_id.as_str(),
                    recipient_id.as_str(),
                ) {
                    return Ok(true);
                }
                let cap = Capability::ReadMessages(recipient_id.clone());
                let granted = token.has_capability(&cap);
                proof {
                    lemma_caps_grant_by_kind(token.capabilities@, cap);
                }
                if granted {
                    Ok(true)
                } else {
                    Err(AuthError::InsufficientCapabilities)
                }
            },
            GardenEntry::GroupMessage { group_id, .. } => {
                let read_cap = Capability::ReadMessages(concat2("group:", group_id.as_str()));
                let can_read = token.has_capability(&read_cap);
                proof {
                    lemma_caps_grant_by_kind(token.capabilities@, read_cap);
                }
                if can_read {
                    return Ok(true);
                }
                let manage_cap = Capability::ManageGroup(group_id.clone());
                let can_manage = token.has_capability(&manage_cap);
                proof {
                    lemma_caps_grant_by_kind(token.capabilities@, manage_cap);
                }
                if can_manage {
                    Ok(true)
                } else {
                    Err(AuthError::InsufficientCapabilities)
                }
            },
            GardenEntry::Profile { user_id, .. } => {
                if str_eq(token.user_id.as_str(), user_id.as_str()) {
                    return Ok(true);
                }
                let cap = Capability::ReadMessages(concat2("profile:", user_id.as_str()));
                let granted = token.has_capability(&cap);
                proof {
                    lemma_caps_grant_by_kind(token.capabilities@, cap);
                }
                if granted {
                    Ok(true)
                } else {
                    Err(AuthError::InsufficientCapabilities)
                }
            },
            GardenEntry::GroupMeta { group_id, .. } => {
                let cap = Capability::ManageGroup(group_id.clone());
                let granted = token.has_capability(&cap);
                proof {
                    lemma_caps_grant_by_kind(token.capabilities@, cap);
                }
                if granted {
                    Ok(true)
                } else {
                    Err(AuthError::InsufficientCapabilities)
                }
            },
            GardenEntry::GroupMember { group_id, .. } => {
                let cap = Capability::ManageGroup(group_id.clone());
                let granted = token.has_capability(&cap);
                proof {
                    lemma_caps_grant_by_kind(token.capabilities@, cap);
                }
                if granted {
                    Ok(true)
                } else {
                    Err(AuthError::InsufficientCapabilities)
                }
            },
            _ => Ok(true),
        }
    }

    /// Decides whether the token may create the entry at time `now`:
    /// expiry first, then — for entries carrying a sender — the identity
    /// check, and only then the capability check, so an impersonation
    /// attempt fails with `IdentityMismatch` whatever capabilities are
    /// held.
    pub fn can_create_entry(token: &AuthToken, entry: &GardenEntry, now: Timestamp) -> (r: Result<
        bool,
        AuthError,
    >)
        ensures
            r == spec_can_create_entry(*token, *entry, now),
    {
        if !token.is_valid(now) {
            return Err(AuthError::TokenExpired);
        }
        match entry {
            GardenEntry::DirectMessage { sender_id, .. } => {
                if !str_eq(token.user_id.as_str(), sender_id.as_str()) {
                    return Err(AuthError::IdentityMismatch);
                }
                let cap = Capability::WriteMessages("inbox".to_owned());
                let granted = token.has_capability(&cap);
                proof {
                    lemma_caps_grant_by_kind(token.capabilities@, cap);
                }
                if granted {
                    Ok(true)
                } else {
                    Err(AuthError::InsufficientCapabilities)
                }
            },
            GardenEntry::GroupMessage { group_id, sender_id, .. } => {
                if !str_eq(token.user_id.as_str(), sender_id.as_str()) {
                    return Err(AuthError::IdentityMismatch);
                }
                let cap = Capability::WriteMessages(concat2("group:", group_id.as_str()));
                let granted = token.has_capability(&cap);
                proof {
                    lemma_caps_grant_by_kind(token.capabilities@, cap);
                }
                if granted {
                    Ok(true)
                } else {
                    Err(AuthError::InsufficientCapabilities)
                }
            },
            GardenEntry::GroupMeta { group_id, .. } => {
                let cap = Capability::ManageGroup(group_id.clone());
                let granted = token.has_capability(&cap);
                proof {
                    lemma_caps_grant_by_kind(token.capabilities@, cap);
                }
                if granted {
                    Ok(true)
                } else {
                    Err(AuthError::InsufficientCapabilities)
                }
            },
            GardenEntry::GroupMember { group_id, .. } => {
                let cap = Capability::ManageGroup(group_id.clone());
                let granted = token.has_capability(&cap);
                proof {
                    lemma_caps_grant_by_kind(token.capabilities@, cap);
                }
                if granted {
                    Ok(true)
                } else {
                    Err(AuthError::InsufficientCapabilities)
                }
            },
            _ => Ok(true),
        }
    }
}

/// Decides whether the token may access the resource at `path` at time
/// `now`. Denial and malformed input both collapse to `false`: an
/// expired token, an invalid or too-short path, an unknown kind, and a
/// missing capability are indistinguishable here by design.
pub fn can_access_path(token: &AuthToken, path: &Path, now: Timestamp) -> (r: bool)
    ensures
        r == spec_can_access_path(*token, path.0@, now),
{
    if !token.is_valid(now) {
        return false;
    }
    if !crate::path::validate_path(path.0.as_str()) {
        return false;
    }
    let segs = crate::path::split_path(path.0.as_str());
    proof {
        assert(forall|k: int| 0 <= k < segs@.len() ==> #[trigger] segs@[k]@ == split_slash(
            path.0@,
        )[k]);
    }
    if segs.len() < 2 {
        return false;
    }
    if str_eq(segs[0].as_str(), "profiles") {
        let user = &segs[1];
        if str_eq(token.user_id.as_str(), user.as_str()) {
            return true;
        }
        let broad = concat2("profiles/", user.as_str());
        if segs.len() >= 3 && str_eq(segs[2].as_str(), "public") {
            let narrow = concat3("profiles/", user.as_str(), "/public");
            let narrow_cap = Capability::ReadMessages(narrow);
            let narrow_granted = token.has_capability(&narrow_cap);
            proof {
                lemma_caps_grant_by_kind(token.capabilities@, narrow_cap);
            }
            if narrow_granted {
                return true;
            }
            let broad_cap = Capability::ReadMessages(broad);
            let broad_granted = token.has_capability(&broad_cap);
            proof {
                lemma_caps_grant_by_kind(token.capabilities@, broad_cap);
            }
            broad_granted
        } else {
            let broad_cap = Capability::ReadMessages(broad);
            let broad_granted = token.has_capability(&broad_cap);
            proof {
                lemma_caps_grant_by_kind(token.capabilities@, broad_cap);
            }
            broad_granted
        }
    } else if str_eq(segs[0].as_str(), "messages") {
        if segs.len() < 4 {
            return false;
        }
        if str_eq(token.user_id.as_str(), segs[1].as_str()) || str_eq(
            token.user_id.as_str(),
            segs[2].as_str(),
        ) {
            return true;
        }
        let base = concat3("messages/", segs[1].as_str(), "/");
        let target = concat2(base.as_str(), segs[2].as_str());
        let cap = Capability::ReadMessages(target);
        let granted = token.has_capability(&cap);
        proof {
            lemma_caps_grant_by_kind(token.capabilities@, cap);
        }
        granted
    } else if str_eq(segs[0].as_str(), "groups") {
        if segs.len() >= 3 && str_eq(segs[2].as_str(), "messages") {
            let cap = Capability::ReadMessages(concat2("groups/", segs[1].as_str()));
            let granted = token.has_capability(&cap);
            proof {
                lemma_caps_grant_by_kind(token.capabilities@, cap);
            }
            granted
        } else {
            let cap = Capability::ManageGroup(segs[1].clone());
            let granted = token.has_capability(&cap);
            proof {
                lemma_caps_grant_by_kind(token.capabilities@, cap);
            }
            granted
        }
    } else if str_eq(segs[0].as_str(), "devices") {
        if str_eq(token.user_id.as_str(), segs[1].as_str()) {
            return true;
        }
        let cap = Capability::ManageDevice(segs[1].clone());
        let granted = token.has_capability(&cap);
        proof {
            lemma_caps_grant_by_kind(token.capabilities@, cap);
        }
        granted
    } else {
        false
    }
}

} // verus!
