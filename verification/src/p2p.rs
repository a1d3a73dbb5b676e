//! Peer-to-peer support types: topics, client configuration, connection
//! state, and the pure framing of the placeholder group encryption.
//!
//! The transport itself — discovery, subscription, delivery — is an
//! external collaborator that moves opaque bytes per topic; this module
//! holds only the values and decisions around it.

use vstd::prelude::*;
use vstd::slice::{slice_subrange, slice_to_vec};
use vstd::string::StrSliceExecFns;
use vstd::utf8::{decode_utf8, encode_utf8, valid_utf8};
use vstd::utf8::{decode_utf8_encode_utf8, encode_utf8_decode_utf8, encode_utf8_valid_utf8};
use std::collections::HashMap;
use std::time::Duration;
use std::time::Instant;
use crate::identity::{Device, Identity};
use crate::text::concat2;
use crate::types::NamespaceId;

verus! {

/// Failures of peer-to-peer operations, each carrying a detail string.
#[derive(Debug, Clone)]
pub enum P2PError {
    InitializationError(String),
    DiscoveryError(String),
    NetworkError(String),
    SyncError(String),
    IdentityError(String),
    StorageError(String),
    GroupError(String),
}

impl P2PError {
    /// The human-readable description: a fixed prefix per kind followed
    /// by the detail.
    pub fn message(&self) -> (r: String)
        ensures
            self matches P2PError::InitializationError(d) ==> r@ == "Failed to initialize P2P network: "@
                + d@,
            self matches P2PError::DiscoveryError(d) ==> r@ == "Peer discovery error: "@ + d@,
            self matches P2PError::NetworkError(d) ==> r@ == "Network connection error: "@ + d@,
            self matches P2PError::SyncError(d) ==> r@ == "Synchronization error: "@ + d@,
            self matches P2PError::IdentityError(d) ==> r@ == "Identity error: "@ + d@,
            self matches P2PError::StorageError(d) ==> r@ == "Storage error: "@ + d@,
            self matches P2PError::GroupError(d) ==> r@ == "Group error: "@ + d@,
    {
        match self {
            P2PError::InitializationError(d) => concat2(
                "Failed to initialize P2P network: ",
                d.as_str(),
            ),
            P2PError::DiscoveryError(d) => concat2("Peer discovery error: ", d.as_str()),
            P2PError::NetworkError(d) => concat2("Network connection error: ", d.as_str()),
            P2PError::SyncError(d) => concat2("Synchronization error: ", d.as_str()),
            P2PError::IdentityError(d) => concat2("Identity error: ", d.as_str()),
            P2PError::StorageError(d) => concat2("Storage error: ", d.as_str()),
            P2PError::GroupError(d) => concat2("Group error: ", d.as_str()),
        }
    }
}

/// The result type of peer-to-peer operations.
pub type P2PResult<T> = Result<T, P2PError>;

/// A named topic for subscription management.
#[derive(Debug, Clone)]
pub struct Topic(pub String);

impl View for Topic {
    type V = Seq<char>;

    open spec fn view(&self) -> Seq<char> {
        self.0@
    }
}

impl Topic {
    pub fn new(name: &str) -> (r: Self)
        ensures
            r@ == name@,
    {
        Topic(name.to_owned())
    }

    pub fn name(&self) -> (r: &str)
        ensures
            r@ == self@,
    {
        self.0.as_str()
    }

    /// The topic name as its UTF-8 bytes.
    pub fn as_bytes(&self) -> (r: Vec<u8>)
        ensures
            r@ == encode_utf8(self@),
    {
        self.0.as_str().as_bytes_vec()
    }
}

/// Relies on `core::time::Duration::from_secs`; the value is opaque to
/// the verifier, so nothing is assumed of it.
#[verifier::external_body]
fn duration_from_secs(secs: u64) -> Duration {
    Duration::from_secs(secs)
}

/// `std::time::Instant`, declared so connection state can carry one; it
/// is opaque to the verifier.
#[verifier::external_type_specification]
#[verifier::external_body]
pub struct ExInstant(Instant);

/// Relies on `Duration`'s `Clone`: `Duration` is `Copy`, so cloning
/// returns the value itself.
pub assume_specification[ <Duration as Clone>::clone ](v: &Duration) -> (r: Duration)
    ensures
        r == *v,
;

/// Relies on `Instant`'s `Clone`: `Instant` is `Copy`, so cloning
/// returns the value itself.
pub assume_specification[ <Instant as Clone>::clone ](v: &Instant) -> (r: Instant)
    ensures
        r == *v,
;

/// Client configuration: network settings and application state.
#[derive(Debug, Clone)]
pub struct GardenConfig {
    pub discovery_timeout: Duration,
    pub connection_timeout: Duration,
    pub max_connections: usize,
    pub user_identity: Option<Identity>,
    pub device: Option<Device>,
    pub namespaces: HashMap<String, NamespaceId>,
    pub data_directory: String,
}

impl Default for GardenConfig {
    /// The default configuration: thirty-second discovery and ten-second
    /// connection timeouts, at most fifty connections, no identity or
    /// device, no namespaces, and a local data directory.
    fn default() -> (r: GardenConfig)
        ensures
            r.max_connections == 50,
            r.user_identity is None,
            r.device is None,
            r.namespaces@ == Map::<String, NamespaceId>::empty(),
            r.data_directory@ == "./garden-data"@,
    {
        GardenConfig {
            discovery_timeout: duration_from_secs(30),
            connection_timeout: duration_from_secs(10),
            max_connections: 50,
            user_identity: None,
            device: None,
            namespaces: HashMap::new(),
            data_directory: "./garden-data".to_owned(),
        }
    }
}

/// Connection state tracked for one peer.
#[derive(Debug, Clone)]
pub struct PeerConnection {
    pub peer_id: String,
    pub topics: Vec<Topic>,
    pub last_seen: Instant,
    pub is_active: bool,
}

/// The standard topics of one user, in a fixed order.
pub fn create_user_topics(user_id: &str) -> (r: Vec<Topic>)
    ensures
        r@.len() == 6,
        r@[0]@ == "users/"@ + user_id@ + "/inbox"@,
        r@[1]@ == "users/"@ + user_id@ + "/presence"@,
        r@[2]@ == "users/"@ + user_id@ + "/profile"@,
        r@[3]@ == "users/"@ + user_id@ + "/apps"@,
        r@[4]@ == "users/"@ + user_id@ + "/topics"@,
        r@[5]@ == "users/"@ + user_id@ + "/gardens"@,
{
    let prefix = concat2("users/", user_id);
    let mut topics: Vec<Topic> = Vec::new();
    topics.push(Topic(concat2(prefix.as_str(), "/inbox")));
    topics.push(Topic(concat2(prefix.as_str(), "/presence")));
    topics.push(Topic(concat2(prefix.as_str(), "/profile")));
    topics.push(Topic(concat2(prefix.as_str(), "/apps")));
    topics.push(Topic(concat2(prefix.as_str(), "/topics")));
    topics.push(Topic(concat2(prefix.as_str(), "/gardens")));
    topics
}

/// The standard topics of one garden, in a fixed order.
pub fn create_garden_topics(garden_id: &str) -> (r: Vec<Topic>)
    ensures
        r@.len() == 6,
        r@[0]@ == "garden/"@ + garden_id@ + "/messages"@,
        r@[1]@ == "garden/"@ + garden_id@ + "/presence"@,
        r@[2]@ == "garden/"@ + garden_id@ + "/files"@,
        r@[3]@ == "garden/"@ + garden_id@ + "/members"@,
        r@[4]@ == "garden/"@ + garden_id@ + "/commands"@,
        r@[5]@ == "garden/"@ + garden_id@ + "/topics"@,
{
    let prefix = concat2("garden/", garden_id);
    let mut topics: Vec<Topic> = Vec::new();
    topics.push(Topic(concat2(prefix.as_str(), "/messages")));
    topics.push(Topic(concat2(prefix.as_str(), "/presence")));
    topics.push(Topic(concat2(prefix.as_str(), "/files")));
    topics.push(Topic(concat2(prefix.as_str(), "/members")));
    topics.push(Topic(concat2(prefix.as_str(), "/commands")));
    topics.push(Topic(concat2(prefix.as_str(), "/topics")));
    topics
}

/// The topic carrying direct messages for a recipient.
pub fn create_direct_message_topic(recipient_id: &str) -> (r: Topic)
    ensures
        r@ == "garden/dm/"@ + recipient_id@,
{
    Topic(concat2("garden/dm/", recipient_id))
}

/// The topic carrying a group's messages.
pub fn create_group_message_topic(group_id: &str) -> (r: Topic)
    ensures
        r@ == "garden/group/"@ + group_id@,
{
    Topic(concat2("garden/group/", group_id))
}

/// The marker prepended by the placeholder group encryption.
pub open spec fn sealed_prefix() -> Seq<u8> {
    encode_utf8("ENCRYPTED:"@)
}

/// Frames a group message as the placeholder encryption does: the sealed
/// marker followed by the plaintext.
pub fn seal_group_message(content: &[u8]) -> (r: Vec<u8>)
    ensures
        r@ == sealed_prefix() + content@,
{
    let mut out = "ENCRYPTED:".as_bytes_vec();
    out.extend_from_slice(content);
    proof {
        assert(out@ =~= sealed_prefix() + content@);
    }
    out
}

/// Unframes a group message: strips the sealed marker, and rejects any
/// input that does not start with it.
pub fn open_group_message(encrypted: &[u8]) -> (r: P2PResult<Vec<u8>>)
    ensures
        r is Ok <==> encrypted@.len() >= sealed_prefix().len() && encrypted@.take(
            sealed_prefix().len() as int,
        ) == sealed_prefix(),
        r matches Ok(p) ==> encrypted@ == sealed_prefix() + p@,
        r matches Err(e) ==> e matches P2PError::GroupError(m) && m@
            == "Invalid encrypted message format"@,
{
    let prefix = "ENCRYPTED:".as_bytes_vec();
    let plen = prefix.len();
    if encrypted.len() < plen {
        return Err(P2PError::GroupError("Invalid encrypted message format".to_owned()));
    }
    let mut i: usize = 0;
    while i < plen
        invariant
            plen == prefix@.len() <= encrypted@.len(),
            i <= plen,
            prefix@ == sealed_prefix(),
            forall|j: int| 0 <= j < i ==> encrypted@[j] == prefix@[j],
        decreases plen - i,
    {
        if encrypted[i] != prefix[i] {
            proof {
                assert(encrypted@.take(plen as int)[i as int] != sealed_prefix()[i as int]);
            }
            return Err(P2PError::GroupError("Invalid encrypted message format".to_owned()));
        }
        i += 1;
    }
    let body = slice_to_vec(slice_subrange(encrypted, plen, encrypted.len()));
    proof {
        assert(encrypted@.take(plen as int) =~= sealed_prefix());
        assert(encrypted@ =~= sealed_prefix() + body@);
    }
    Ok(body)
}

/// The key package announcing a group: the group identifier's UTF-8
/// bytes, as the placeholder group encryption issues it.
pub fn group_key_package(group_id: &str) -> (r: Vec<u8>)
    ensures
        r@ == encode_utf8(group_id@),
{
    group_id.as_bytes_vec()
}

/// Relies on `core::str::from_utf8` (the string is copied out of the
/// borrowed result): decoding succeeds exactly on valid UTF-8, and the
/// decoded characters are `decode_utf8` of the bytes.
#[verifier::external_body]
fn bytes_to_string(bytes: &[u8]) -> (r: Option<String>)
    ensures
        r is Some <==> valid_utf8(bytes@),
        r matches Some(s) ==> s@ == decode_utf8(bytes@),
{
    match core::str::from_utf8(bytes) {
        Ok(s) => Some(s.to_owned()),
        Err(_) => None,
    }
}

/// Accepts a key package exactly when it is the UTF-8 encoding of the
/// group identifier; bytes that are not UTF-8 at all are reported apart
/// from a well-formed package for some other group.
pub fn check_key_package(group_id: &str, key_package: &[u8]) -> (r: P2PResult<()>)
    ensures
        r is Ok <==> key_package@ == encode_utf8(group_id@),
        !valid_utf8(key_package@) ==> (r matches Err(e) && (e matches P2PError::GroupError(m)
            && m@ == "Invalid key package"@)),
        valid_utf8(key_package@) && key_package@ != encode_utf8(group_id@) ==> (r matches Err(e)
            && (e matches P2PError::GroupError(m) && m@ == "Key package doesn't match group ID"@)),
{
    proof {
        encode_utf8_valid_utf8(group_id@);
        encode_utf8_decode_utf8(group_id@);
        if valid_utf8(key_package@) {
            decode_utf8_encode_utf8(key_package@);
        }
    }
    match bytes_to_string(key_package) {
        None => Err(P2PError::GroupError("Invalid key package".to_owned())),
        Some(decoded) => {
            if crate::text::str_eq(decoded.as_str(), group_id) {
                Ok(())
            } else {
                Err(P2PError::GroupError("Key package doesn't match group ID".to_owned()))
            }
        },
    }
}

} // verus!
