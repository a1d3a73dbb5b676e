//! Shared value types of the protocol core: timestamps, message and
//! profile classifications, and the identifier newtypes used by entries
//! and resource paths.

use vstd::prelude::*;

verus! {

/// Seconds since the Unix epoch, signed.
pub type Timestamp = i64;

/// Classification of a message payload.
#[derive(Debug, Clone)]
pub enum MessageType {
    Text,
    Media,
    Reply { to_message_id: String },
    Edit { original_message_id: String },
    Delete { message_id: String },
    Reaction { message_id: String, reaction: String },
}

/// Fields of a user profile.
#[derive(Debug, Clone)]
pub enum ProfileField {
    DisplayName,
    Avatar,
    Bio,
    PublicKey,
    DeviceList,
    Settings,
}

/// Status of a friend request.
#[derive(Debug, Clone)]
pub enum RequestStatus {
    Pending,
    Accepted,
    Rejected,
    Cancelled,
}

/// Kinds of keys managed for a device.
#[derive(Debug, Clone)]
pub enum KeyType {
    Identity,
    Messaging,
    GroupAccess,
    DeviceAuth,
}

/// Roles inside a group.
#[derive(Debug, Clone)]
pub enum GroupRole {
    Owner,
    Admin,
    Member,
    Invited,
}

/// Reference to an attachment stored outside the message body.
#[derive(Debug, Clone)]
pub struct AttachmentRef {
    pub hash: String,
    pub encryption_key: Vec<u8>,
    pub metadata: AttachmentMetadata,
}

/// Descriptive metadata of an attachment.
#[derive(Debug, Clone)]
pub struct AttachmentMetadata {
    pub name: String,
    pub mime_type: String,
    pub size: u64,
    pub thumbnail: Option<Vec<u8>>,
}

/// Identifier of a subspace within a namespace.
#[derive(Debug, Clone)]
pub struct SubspaceId(pub String);

/// Identifier of a namespace.
#[derive(Debug, Clone)]
pub struct NamespaceId(pub String);

/// A slash-delimited resource locator.
#[derive(Debug, Clone)]
pub struct Path(pub String);

} // verus!
