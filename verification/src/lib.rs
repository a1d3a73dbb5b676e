//! Capability-based, path-scoped authorization for a decentralized
//! identity and messaging model.
//!
//! Every actor holds a signed token attesting an identity and a set of
//! granted capabilities; every protected resource is reached through a
//! structured path or a typed entry, and access decisions are derived
//! deterministically from the token and the resource alone.

pub mod access;
pub mod auth;
pub mod crypto;
pub mod encoding;
pub mod entries;
pub mod identity;
pub mod migrations;
pub mod p2p;
pub mod path;
pub mod schema;
pub mod text;
pub mod types;
