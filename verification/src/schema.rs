//! The stored-data schema: the record types written to the entry store,
//! and the clock and topic helpers they share.
//!
//! The entry store itself is an external collaborator; this module only
//! fixes the shapes of what upstream code persists.

use vstd::prelude::*;
use crate::text::concat2;

verus! {

/// Milliseconds since the Unix epoch.
pub type Timestamp = u64;

/// Relies on `std::time::SystemTime::now` and `duration_since` the Unix
/// epoch: the current clock reading in milliseconds. The value depends
/// on the clock, so nothing is assumed of it; a clock before the epoch
/// reads as zero.
#[verifier::external_body]
pub fn current_timestamp() -> Timestamp {
    match std::time::SystemTime::now().duration_since(std::time::UNIX_EPOCH) {
        Ok(elapsed) => elapsed.as_millis() as Timestamp,
        Err(_) => 0,
    }
}

/// Classification of a stored message payload.
#[derive(Debug, Clone, PartialEq)]
pub enum MessageType {
    Text,
    Media,
    Reply { to_message_id: String },
    Edit { original_message_id: String },
    Delete { message_id: String },
    Reaction { message_id: String, reaction: String },
}

/// Status of a stored friend request.
#[derive(Debug, Clone, PartialEq)]
pub enum RequestStatus {
    Pending,
    Accepted,
    Rejected,
    Cancelled,
}

/// Roles inside a garden.
#[derive(Debug, Clone, PartialEq)]
pub enum GroupRole {
    Owner,
    Admin,
    Member,
    Invited,
}

/// Fields of a stored profile.
#[derive(Debug, Clone, PartialEq)]
pub enum ProfileField {
    DisplayName,
    Avatar,
    Bio,
    PublicKey,
    DeviceList,
    Settings,
}

/// Kinds of stored keys.
#[derive(Debug, Clone, PartialEq)]
pub enum KeyType {
    Identity,
    Messaging,
    GroupAccess,
    DeviceAuth,
}

/// Who may see a slash command.
#[derive(Debug, Clone, PartialEq)]
pub enum CommandVisibility {
    Public,
    Garden,
    Private,
}

/// Descriptive metadata of a stored attachment.
#[derive(Debug, Clone, PartialEq)]
pub struct AttachmentMetadata {
    pub name: String,
    pub mime_type: String,
    pub size: u64,
    pub thumbnail: Option<Vec<u8>>,
}

/// Reference to a stored attachment.
#[derive(Debug, Clone, PartialEq)]
pub struct AttachmentRef {
    pub hash: String,
    pub encryption_key: Vec<u8>,
    pub metadata: AttachmentMetadata,
}

/// A stored direct message between users.
#[derive(Debug, Clone)]
pub struct DirectMessage {
    pub sender_id: String,
    pub recipient_id: String,
    pub thread_id: String,
    pub encrypted_content: Vec<u8>,
    pub timestamp: Timestamp,
    pub message_type: MessageType,
    pub attachments: Vec<AttachmentRef>,
}

/// A stored message in a garden.
#[derive(Debug, Clone)]
pub struct GroupMessage {
    pub garden_id: String,
    pub sender_id: String,
    pub encrypted_content: Vec<u8>,
    pub timestamp: Timestamp,
    pub message_type: MessageType,
    pub attachments: Vec<AttachmentRef>,
}

/// A stored friend request.
#[derive(Debug, Clone)]
pub struct FriendRequest {
    pub from: String,
    pub to: String,
    pub status: RequestStatus,
    pub timestamp: Timestamp,
}

/// A stored profile field; the content is encrypted for private fields.
#[derive(Debug, Clone)]
pub struct Profile {
    pub user_id: String,
    pub field_type: ProfileField,
    pub content: Vec<u8>,
    pub timestamp: Timestamp,
}

/// A stored slash-command definition.
#[derive(Debug, Clone)]
pub struct SlashCommand {
    pub command: String,
    pub description: Option<String>,
    pub handler_url: String,
    pub visibility: CommandVisibility,
    pub creator_id: String,
    pub garden_id: Option<String>,
    pub timestamp: Timestamp,
    pub bot_token: Option<String>,
}

/// Stored metadata of a garden.
#[derive(Debug, Clone)]
pub struct GardenMeta {
    pub garden_id: String,
    pub encrypted_meta: Vec<u8>,
    pub timestamp: Timestamp,
    pub topic: String,
}

/// A stored garden membership record.
#[derive(Debug, Clone)]
pub struct GardenMember {
    pub garden_id: String,
    pub user_id: String,
    pub role: GroupRole,
    pub encrypted_key: Vec<u8>,
    pub timestamp: Timestamp,
}

/// Stored key material of a device.
#[derive(Debug, Clone)]
pub struct DeviceKey {
    pub user_id: String,
    pub device_id: String,
    pub key_type: KeyType,
    pub public_key: Vec<u8>,
    pub signature: Vec<u8>,
    pub timestamp: Timestamp,
}

/// The standard topic name of a garden.
pub fn garden_topic(garden_id: &str) -> (r: String)
    ensures
        r@ == "garden:"@ + garden_id@,
{
    concat2("garden:", garden_id)
}

} // verus!
