// Tests of the peer-to-peer support types: configuration defaults,
// topic naming, error messages, and the placeholder group-message
// framing.
use garden_core::p2p::{
    check_key_package, create_direct_message_topic, create_garden_topics,
    create_group_message_topic, create_user_topics, group_key_package, open_group_message,
    seal_group_message, GardenConfig, P2PError,
};

use std::time::Duration;

#[test]
fn test_garden_config_default() {
    let config = GardenConfig::default();

    assert_eq!(config.discovery_timeout, Duration::from_secs(30));
    assert_eq!(config.connection_timeout, Duration::from_secs(10));
    assert_eq!(config.max_connections, 50);
    assert!(config.user_identity.is_none());
    assert!(config.device.is_none());
    assert!(config.namespaces.is_empty());
    assert_eq!(config.data_directory, "./garden-data");
}

#[test]
fn test_create_user_topics() {
    let user_id = "test-user-123";
    let topics = create_user_topics(user_id);

    assert_eq!(topics.len(), 6);

    assert_eq!(topics[0].name(), "users/test-user-123/inbox");
    assert_eq!(topics[1].name(), "users/test-user-123/presence");
    assert_eq!(topics[2].name(), "users/test-user-123/profile");
    assert_eq!(topics[3].name(), "users/test-user-123/apps");
    assert_eq!(topics[4].name(), "users/test-user-123/topics");
    assert_eq!(topics[5].name(), "users/test-user-123/gardens");
}

#[test]
fn test_create_garden_topics() {
    let topics = create_garden_topics("g-9");

    assert_eq!(topics.len(), 6);
    assert_eq!(topics[0].name(), "garden/g-9/messages");
    assert_eq!(topics[1].name(), "garden/g-9/presence");
    assert_eq!(topics[2].name(), "garden/g-9/files");
    assert_eq!(topics[3].name(), "garden/g-9/members");
    assert_eq!(topics[4].name(), "garden/g-9/commands");
    assert_eq!(topics[5].name(), "garden/g-9/topics");
}

#[test]
fn test_message_topic_creation() {
    let dm_topic = create_direct_message_topic("user123");
    assert_eq!(dm_topic.name(), "garden/dm/user123");

    let group_topic = create_group_message_topic("group456");
    assert_eq!(group_topic.name(), "garden/group/group456");
}

#[test]
fn test_topic_bytes() {
    let topic = garden_core::p2p::Topic::new("garden/dm/ab");
    assert_eq!(topic.as_bytes(), b"garden/dm/ab".to_vec());
    assert_eq!(topic.name(), "garden/dm/ab");
}

#[test]
fn test_p2p_error_display() {
    let init_error = P2PError::InitializationError("Failed to initialize".to_string());
    assert_eq!(
        init_error.message(),
        "Failed to initialize P2P network: Failed to initialize"
    );

    let discovery_error = P2PError::DiscoveryError("Peer not found".to_string());
    assert_eq!(discovery_error.message(), "Peer discovery error: Peer not found");

    let network_error = P2PError::NetworkError("Connection failed".to_string());
    assert_eq!(network_error.message(), "Network connection error: Connection failed");
}

#[test]
fn test_more_p2p_error_messages() {
    let sync_error = P2PError::SyncError("behind".to_string());
    assert_eq!(sync_error.message(), "Synchronization error: behind");

    let identity_error = P2PError::IdentityError("unknown".to_string());
    assert_eq!(identity_error.message(), "Identity error: unknown");

    let storage_error = P2PError::StorageError("full".to_string());
    assert_eq!(storage_error.message(), "Storage error: full");

    let group_error = P2PError::GroupError("missing".to_string());
    assert_eq!(group_error.message(), "Group error: missing");
}

#[test]
fn test_group_message_sealing() {
    let sealed = seal_group_message(b"Test encrypted message");
    assert_eq!(sealed, b"ENCRYPTED:Test encrypted message".to_vec());

    let opened = open_group_message(&sealed).unwrap();
    assert_eq!(opened, b"Test encrypted message".to_vec());

    // An empty payload still carries the marker.
    let sealed_empty = seal_group_message(b"");
    assert_eq!(sealed_empty, b"ENCRYPTED:".to_vec());
    assert_eq!(open_group_message(&sealed_empty).unwrap(), Vec::<u8>::new());
}

#[test]
fn test_open_group_message_rejects_bad_frames() {
    // Wrong marker.
    let r = open_group_message(b"INVALID_PREFIX:message");
    assert!(r.is_err());
    match r {
        Err(P2PError::GroupError(m)) => assert_eq!(m, "Invalid encrypted message format"),
        _ => panic!("expected a group error"),
    }

    // Too short to hold the marker.
    assert!(open_group_message(b"ENC").is_err());
}

#[test]
fn test_key_package_round_trip() {
    let package = group_key_package("test-encrypted-group");
    assert_eq!(package, b"test-encrypted-group".to_vec());
    assert!(check_key_package("test-encrypted-group", &package).is_ok());

    // A package for another group is rejected with the mismatch message.
    let r = check_key_package("another-group", &package);
    match r {
        Err(P2PError::GroupError(m)) => assert_eq!(m, "Key package doesn't match group ID"),
        _ => panic!("expected a group error"),
    }

    // Bytes that are not UTF-8 at all are rejected as invalid.
    let r = check_key_package("test-encrypted-group", &[0xff, 0xfe, 0x41]);
    match r {
        Err(P2PError::GroupError(m)) => assert_eq!(m, "Invalid key package"),
        _ => panic!("expected a group error"),
    }
}
