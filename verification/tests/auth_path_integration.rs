// Integration tests for auth with path validation.
use garden_core::access::can_access_path;
use garden_core::auth::AuthToken;
use garden_core::identity::{Capability, Identity};
use garden_core::types::Path;

use chrono::Utc;
use uuid::Uuid;

#[test]
fn test_auth_with_path_validation() {
    let (alice_identity, alice_signing_key) = Identity::generate_identity();
    let (bob_identity, _) = Identity::generate_identity();

    let now = Utc::now().timestamp();
    let expires_at = now + 3600;

    let mut alice_token = AuthToken {
        user_id: alice_identity.user_id.clone(),
        device_id: Uuid::new_v4().to_string(),
        capabilities: vec![
            Capability::ReadMessages(format!("profiles/{}", alice_identity.user_id)),
            Capability::WriteMessages(format!("profiles/{}", alice_identity.user_id)),
            Capability::ManageGroup("group-123".to_string()),
            Capability::ReadMessages(format!("profiles/{}/public", bob_identity.user_id)),
        ],
        signature: None,
        expires_at,
    };

    alice_token.sign(&alice_signing_key);

    let mut bob_token = AuthToken {
        user_id: bob_identity.user_id.clone(),
        device_id: Uuid::new_v4().to_string(),
        capabilities: vec![
            Capability::ReadMessages(format!("profiles/{}", bob_identity.user_id)),
            Capability::WriteMessages(format!("profiles/{}", bob_identity.user_id)),
        ],
        signature: None,
        expires_at,
    };

    bob_token.sign(&alice_signing_key);

    // 1. Alice accessing her own profile.
    let alice_profile_path = garden_core::path::generate_profile_path(
        &alice_identity.user_id,
        "displayName",
        true,
    );
    let alice_profile_path = Path(alice_profile_path);
    assert!(can_access_path(&alice_token, &alice_profile_path, now));

    // 2. Alice accessing Bob's public profile.
    let bob_public_profile_path = garden_core::path::generate_profile_path(
        &bob_identity.user_id,
        "avatar",
        true,
    );
    let bob_public_profile_path = Path(bob_public_profile_path);
    assert!(can_access_path(&alice_token, &bob_public_profile_path, now));

    // 3. Alice accessing Bob's private profile - should fail.
    let bob_private_profile_path = garden_core::path::generate_profile_path(
        &bob_identity.user_id,
        "settings",
        false,
    );
    let bob_private_profile_path = Path(bob_private_profile_path);
    assert!(!can_access_path(&alice_token, &bob_private_profile_path, now));

    // 4. Alice accessing group data.
    let group_path = garden_core::path::build_path(&["groups", "group-123", "metadata"]);
    let group_path = Path(group_path);
    assert!(can_access_path(&alice_token, &group_path, now));

    // 5. Bob cannot access Alice's profile.
    let alice_private_path = garden_core::path::generate_profile_path(
        &alice_identity.user_id,
        "settings",
        false,
    );
    let alice_private_path = Path(alice_private_path);
    assert!(!can_access_path(&bob_token, &alice_private_path, now));

    // 6. Bob cannot access group data.
    assert!(!can_access_path(&bob_token, &group_path, now));
}

#[test]
fn test_auth_with_direct_message_paths() {
    let (alice_identity, alice_signing_key) = Identity::generate_identity();
    let (bob_identity, _) = Identity::generate_identity();

    let now = Utc::now().timestamp();
    let expires_at = now + 3600;

    let mut alice_token = AuthToken {
        user_id: alice_identity.user_id.clone(),
        device_id: Uuid::new_v4().to_string(),
        capabilities: vec![
            Capability::ReadMessages(format!(
                "messages/{}/{}",
                alice_identity.user_id, bob_identity.user_id
            )),
            Capability::WriteMessages(format!(
                "messages/{}/{}",
                alice_identity.user_id, bob_identity.user_id
            )),
        ],
        signature: None,
        expires_at,
    };

    alice_token.sign(&alice_signing_key);

    let thread_id = "thread-123";
    let msg_id = "msg-456";

    let message_path = garden_core::path::generate_direct_message_path(
        &alice_identity.user_id,
        &bob_identity.user_id,
        thread_id,
        msg_id,
    );
    let message_path = Path(message_path);
    assert!(can_access_path(&alice_token, &message_path, now));

    let (charlie_identity, _) = Identity::generate_identity();

    let other_message_path = garden_core::path::generate_direct_message_path(
        &bob_identity.user_id,
        &charlie_identity.user_id,
        "other-thread",
        "other-msg",
    );
    let other_message_path = Path(other_message_path);
    assert!(!can_access_path(&alice_token, &other_message_path, now));
}

#[test]
fn test_auth_with_group_message_paths() {
    let (owner_identity, owner_signing_key) = Identity::generate_identity();
    let (member_identity, _) = Identity::generate_identity();
    let (non_member_identity, _) = Identity::generate_identity();

    let group_id = "group-789";
    let msg_id = "msg-321";

    let now = Utc::now().timestamp();
    let expires_at = now + 3600;

    let mut owner_token = AuthToken {
        user_id: owner_identity.user_id.clone(),
        device_id: Uuid::new_v4().to_string(),
        capabilities: vec![
            Capability::ManageGroup(group_id.to_string()),
            Capability::ReadMessages(format!("groups/{}", group_id)),
            Capability::WriteMessages(format!("groups/{}", group_id)),
        ],
        signature: None,
        expires_at,
    };

    owner_token.sign(&owner_signing_key);

    let mut member_token = AuthToken {
        user_id: member_identity.user_id.clone(),
        device_id: Uuid::new_v4().to_string(),
        capabilities: vec![
            Capability::ReadMessages(format!("groups/{}", group_id)),
            Capability::WriteMessages(format!("groups/{}", group_id)),
        ],
        signature: None,
        expires_at,
    };

    member_token.sign(&owner_signing_key);

    let mut non_member_token = AuthToken {
        user_id: non_member_identity.user_id.clone(),
        device_id: Uuid::new_v4().to_string(),
        capabilities: vec![],
        signature: None,
        expires_at,
    };

    non_member_token.sign(&owner_signing_key);

    let group_message_path = garden_core::path::generate_group_message_path(group_id, msg_id);
    let group_message_path = Path(group_message_path);

    assert!(can_access_path(&owner_token, &group_message_path, now));
    assert!(can_access_path(&member_token, &group_message_path, now));
    assert!(!can_access_path(&non_member_token, &group_message_path, now));

    let group_meta_path = garden_core::path::build_path(&["groups", group_id, "metadata"]);
    let group_meta_path = Path(group_meta_path);

    assert!(can_access_path(&owner_token, &group_meta_path, now));
    assert!(!can_access_path(&member_token, &group_meta_path, now));
}
