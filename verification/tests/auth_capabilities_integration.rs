// Integration tests for auth and capabilities working together.
use garden_core::access::{AccessControlService, AuthError};
use garden_core::auth::AuthToken;
use garden_core::entries::GardenEntry;
use garden_core::identity::{Capability, Identity};
use garden_core::types::{MessageType, SubspaceId};

use chrono::Utc;
use uuid::Uuid;

#[test]
fn test_direct_message_authorization() {
    let (alice_identity, alice_signing_key) = Identity::generate_identity();
    let (bob_identity, _) = Identity::generate_identity();

    let now = Utc::now().timestamp();
    let expires_at = now + 3600;

    let mut alice_token = AuthToken {
        user_id: alice_identity.user_id.clone(),
        device_id: Uuid::new_v4().to_string(),
        capabilities: vec![
            Capability::WriteMessages("inbox".to_string()),
            Capability::ReadMessages("inbox".to_string()),
        ],
        signature: None,
        expires_at,
    };

    alice_token.sign(&alice_signing_key);

    let mut bob_token = AuthToken {
        user_id: bob_identity.user_id.clone(),
        device_id: Uuid::new_v4().to_string(),
        capabilities: vec![Capability::ReadMessages(alice_identity.user_id.clone())],
        signature: None,
        expires_at,
    };

    bob_token.sign(&alice_signing_key);

    let subspace_id = SubspaceId("test-subspace".to_string());
    let direct_message = GardenEntry::DirectMessage {
        sender_id: alice_identity.user_id.clone(),
        recipient_id: bob_identity.user_id.clone(),
        thread_id: "thread-1".to_string(),
        subspace_id,
        encrypted_content: vec![1, 2, 3],
        timestamp: now,
        message_type: MessageType::Text,
        attachments: vec![],
    };

    let alice_can_create = AccessControlService::can_create_entry(&alice_token, &direct_message, now);
    assert!(alice_can_create.is_ok());
    assert!(alice_can_create.unwrap());

    let bob_can_access = AccessControlService::can_access_entry(&bob_token, &direct_message, now);
    assert!(bob_can_access.is_ok());
    assert!(bob_can_access.unwrap());

    let (charlie_identity, charlie_signing_key) = Identity::generate_identity();
    let mut charlie_token = AuthToken {
        user_id: charlie_identity.user_id.clone(),
        device_id: Uuid::new_v4().to_string(),
        capabilities: vec![Capability::WriteMessages("inbox".to_string())],
        signature: None,
        expires_at,
    };

    charlie_token.sign(&charlie_signing_key);

    let fake_message = GardenEntry::DirectMessage {
        sender_id: alice_identity.user_id.clone(),
        recipient_id: bob_identity.user_id.clone(),
        thread_id: "thread-1".to_string(),
        subspace_id: SubspaceId("test-subspace".to_string()),
        encrypted_content: vec![1, 2, 3],
        timestamp: now,
        message_type: MessageType::Text,
        attachments: vec![],
    };

    let charlie_fake_create = AccessControlService::can_create_entry(&charlie_token, &fake_message, now);
    assert!(charlie_fake_create.is_err());

    let charlie_access = AccessControlService::can_access_entry(&charlie_token, &direct_message, now);
    assert!(charlie_access.is_err());
}

#[test]
fn test_group_message_authorization() {
    let (owner_identity, owner_signing_key) = Identity::generate_identity();
    let (member_identity, _) = Identity::generate_identity();
    let (non_member_identity, _) = Identity::generate_identity();

    let now = Utc::now().timestamp();
    let expires_at = now + 3600;
    let group_id = "test-group-456";

    let mut owner_token = AuthToken {
        user_id: owner_identity.user_id.clone(),
        device_id: Uuid::new_v4().to_string(),
        capabilities: vec![
            Capability::ManageGroup(group_id.to_string()),
            Capability::WriteMessages(format!("group:{}", group_id)),
            Capability::ReadMessages(format!("group:{}", group_id)),
        ],
        signature: None,
        expires_at,
    };

    owner_token.sign(&owner_signing_key);

    let mut member_token = AuthToken {
        user_id: member_identity.user_id.clone(),
        device_id: Uuid::new_v4().to_string(),
        capabilities: vec![
            Capability::WriteMessages(format!("group:{}", group_id)),
            Capability::ReadMessages(format!("group:{}", group_id)),
        ],
        signature: None,
        expires_at,
    };

    member_token.sign(&owner_signing_key);

    let mut non_member_token = AuthToken {
        user_id: non_member_identity.user_id.clone(),
        device_id: Uuid::new_v4().to_string(),
        capabilities: vec![Capability::WriteMessages("inbox".to_string())],
        signature: None,
        expires_at,
    };

    non_member_token.sign(&owner_signing_key);

    let subspace_id = SubspaceId("test-group-subspace".to_string());
    let group_message = GardenEntry::GroupMessage {
        group_id: group_id.to_string(),
        sender_id: owner_identity.user_id.clone(),
        subspace_id: subspace_id.clone(),
        encrypted_content: vec![1, 2, 3],
        timestamp: now,
        message_type: MessageType::Text,
        attachments: vec![],
    };

    let owner_can_create = AccessControlService::can_create_entry(&owner_token, &group_message, now);
    assert!(owner_can_create.is_ok());
    assert!(owner_can_create.unwrap());

    let owner_can_access = AccessControlService::can_access_entry(&owner_token, &group_message, now);
    assert!(owner_can_access.is_ok());
    assert!(owner_can_access.unwrap());

    let member_message = GardenEntry::GroupMessage {
        group_id: group_id.to_string(),
        sender_id: member_identity.user_id.clone(),
        subspace_id,
        encrypted_content: vec![1, 2, 3],
        timestamp: now,
        message_type: MessageType::Text,
        attachments: vec![],
    };

    let member_can_create = AccessControlService::can_create_entry(&member_token, &member_message, now);
    assert!(member_can_create.is_ok());
    assert!(member_can_create.unwrap());

    let member_can_access_owner = AccessControlService::can_access_entry(&member_token, &group_message, now);
    assert!(member_can_access_owner.is_ok());
    assert!(member_can_access_owner.unwrap());

    let non_member_fake_message = GardenEntry::GroupMessage {
        group_id: group_id.to_string(),
        sender_id: non_member_identity.user_id.clone(),
        subspace_id: SubspaceId("test-group-subspace".to_string()),
        encrypted_content: vec![1, 2, 3],
        timestamp: now,
        message_type: MessageType::Text,
        attachments: vec![],
    };

    let non_member_create =
        AccessControlService::can_create_entry(&non_member_token, &non_member_fake_message, now);
    assert!(non_member_create.is_err());

    let non_member_access = AccessControlService::can_access_entry(&non_member_token, &group_message, now);
    assert!(non_member_access.is_err());

    let group_meta = GardenEntry::GroupMeta {
        group_id: group_id.to_string(),
        subspace_id: SubspaceId("test-group-subspace".to_string()),
        encrypted_meta: vec![1, 2, 3],
        timestamp: now,
    };

    let owner_manage_meta = AccessControlService::can_create_entry(&owner_token, &group_meta, now);
    assert!(owner_manage_meta.is_ok());
    assert!(owner_manage_meta.unwrap());

    let member_manage_meta = AccessControlService::can_create_entry(&member_token, &group_meta, now);
    assert!(member_manage_meta.is_err());
}

#[test]
fn test_token_expiry() {
    let (identity, signing_key) = Identity::generate_identity();

    let now = Utc::now().timestamp();
    let expired_at = now - 3600;

    let mut expired_token = AuthToken {
        user_id: identity.user_id.clone(),
        device_id: Uuid::new_v4().to_string(),
        capabilities: vec![
            Capability::ReadMessages("*".to_string()),
            Capability::WriteMessages("*".to_string()),
        ],
        signature: None,
        expires_at: expired_at,
    };

    expired_token.sign(&signing_key);

    let entry = GardenEntry::DirectMessage {
        sender_id: identity.user_id.clone(),
        recipient_id: "other-user".to_string(),
        thread_id: "thread-1".to_string(),
        subspace_id: SubspaceId("test-subspace".to_string()),
        encrypted_content: vec![1, 2, 3],
        timestamp: now,
        message_type: MessageType::Text,
        attachments: vec![],
    };

    let access_result = AccessControlService::can_access_entry(&expired_token, &entry, now);
    assert!(access_result.is_err());

    let create_result = AccessControlService::can_create_entry(&expired_token, &entry, now);
    assert!(create_result.is_err());

    match access_result {
        Err(AuthError::TokenExpired) => {},
        _ => panic!("Expected TokenExpired error, got {:?}", access_result),
    }
}
