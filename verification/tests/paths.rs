// Tests of path construction, validation, splitting, and path-based
// access decisions.
use garden_core::access::can_access_path;
use garden_core::auth::AuthToken;
use garden_core::identity::Capability;
use garden_core::path::{
    build_path, generate_device_key_path, generate_direct_message_path,
    generate_group_message_path, generate_profile_path, split_path, validate_path,
};
use garden_core::types::Path;

use uuid::Uuid;

fn token_with(user_id: &str, capabilities: Vec<Capability>, expires_at: i64) -> AuthToken {
    AuthToken {
        user_id: user_id.to_string(),
        device_id: Uuid::new_v4().to_string(),
        capabilities,
        signature: None,
        expires_at,
    }
}

#[test]
fn test_build_path_joins_with_slashes() {
    assert_eq!(build_path(&["a", "b", "c"]), "a/b/c");
    assert_eq!(build_path(&["solo"]), "solo");
    assert_eq!(build_path(&[]), "");
    assert_eq!(build_path(&["", "x"]), "/x");
}

#[test]
fn test_validate_path_rules() {
    assert!(validate_path("profiles/alice/public/avatar"));
    assert!(validate_path("a"));
    // Empty paths are rejected.
    assert!(!validate_path(""));
    // Any occurrence of the literal `..` is rejected.
    assert!(!validate_path(".."));
    assert!(!validate_path("a/../b"));
    assert!(!validate_path("trailing.."));
    // A single dot is not rejected: the check is shallow by design.
    assert!(validate_path("a/./b"));
    assert!(validate_path("a.b"));
}

#[test]
fn test_path_generators() {
    assert_eq!(
        generate_direct_message_path("alice", "bob", "t1", "m1"),
        "messages/alice/bob/t1/m1"
    );
    assert_eq!(generate_group_message_path("g1", "m2"), "groups/g1/messages/m2");
    assert_eq!(generate_profile_path("alice", "avatar", true), "profiles/alice/public/avatar");
    assert_eq!(
        generate_profile_path("alice", "settings", false),
        "profiles/alice/private/settings"
    );
    assert_eq!(
        generate_device_key_path("alice", "d1", "messaging"),
        "devices/alice/d1/keys/messaging"
    );
}

#[test]
fn test_split_path_segments() {
    assert_eq!(split_path("a/b/c"), vec!["a", "b", "c"]);
    assert_eq!(split_path("a"), vec!["a"]);
    assert_eq!(split_path(""), vec![""]);
    assert_eq!(split_path("/a/"), vec!["", "a", ""]);
    assert_eq!(split_path("a//b"), vec!["a", "", "b"]);
}

#[test]
fn test_profile_path_access() {
    let now = 10;
    // Alice reaches her own public profile with zero capabilities.
    let alice = token_with("alice", vec![], now + 100);
    let path = Path("profiles/alice/public/avatar".to_string());
    assert!(can_access_path(&alice, &path, now));

    // Bob cannot, without a grant.
    let bob = token_with("bob", vec![], now + 100);
    assert!(!can_access_path(&bob, &path, now));

    // The narrow public grant suffices for the public sub-path.
    let bob_narrow = token_with(
        "bob",
        vec![Capability::ReadMessages("profiles/alice/public".to_string())],
        now + 100,
    );
    assert!(can_access_path(&bob_narrow, &path, now));
    // But not for the private sub-path.
    let private = Path("profiles/alice/private/settings".to_string());
    assert!(!can_access_path(&bob_narrow, &private, now));

    // The broad grant opens both.
    let bob_broad = token_with(
        "bob",
        vec![Capability::ReadMessages("profiles/alice".to_string())],
        now + 100,
    );
    assert!(can_access_path(&bob_broad, &path, now));
    assert!(can_access_path(&bob_broad, &private, now));
}

#[test]
fn test_message_path_access() {
    let now = 10;
    let path = Path("messages/alice/bob/t1/m1".to_string());

    // Sender and recipient reach their own conversation.
    assert!(can_access_path(&token_with("alice", vec![], now + 100), &path, now));
    assert!(can_access_path(&token_with("bob", vec![], now + 100), &path, now));

    // A third party needs the conversation-scoped grant.
    let carol = token_with("carol", vec![], now + 100);
    assert!(!can_access_path(&carol, &path, now));
    let carol_granted = token_with(
        "carol",
        vec![Capability::ReadMessages("messages/alice/bob".to_string())],
        now + 100,
    );
    assert!(can_access_path(&carol_granted, &path, now));

    // A message path with fewer than four segments is refused.
    let short = Path("messages/alice/bob".to_string());
    assert!(!can_access_path(&token_with("alice", vec![], now + 100), &short, now));
}

#[test]
fn test_device_path_access() {
    let now = 10;
    let path = Path("devices/alice/d1/keys/messaging".to_string());

    assert!(can_access_path(&token_with("alice", vec![], now + 100), &path, now));
    assert!(!can_access_path(&token_with("bob", vec![], now + 100), &path, now));

    let manager = token_with(
        "bob",
        vec![Capability::ManageDevice("alice".to_string())],
        now + 100,
    );
    assert!(can_access_path(&manager, &path, now));
}

#[test]
fn test_path_access_rejects_malformed_and_unknown() {
    let now = 10;
    let token = token_with(
        "alice",
        vec![Capability::ReadMessages("*".to_string())],
        now + 100,
    );

    // Invalid paths collapse to false.
    assert!(!can_access_path(&token, &Path("".to_string()), now));
    assert!(!can_access_path(&token, &Path("profiles/../secret".to_string()), now));
    // Fewer than two segments collapse to false.
    assert!(!can_access_path(&token, &Path("profiles".to_string()), now));
    // Unknown kinds are a closed default-deny.
    assert!(!can_access_path(&token, &Path("elsewhere/alice".to_string()), now));
}

#[test]
fn test_path_access_requires_valid_token() {
    let now = 10;
    let path = Path("profiles/alice/public/avatar".to_string());
    // An expired token fails even for the owner.
    let expired = token_with("alice", vec![], now);
    assert!(!can_access_path(&expired, &path, now));
}
