//! Verified core of a multi-platform social posting tool.
//!
//! The library covers the credential lifecycle: how token records are
//! encoded to and decoded from their durable JSON files, how each
//! platform's auth and post requests are built and their responses read,
//! and how a single post survives token expiry through a bounded
//! refresh-then-reauthorize retry protocol. Transport (HTTP), the user
//! interface and the process environment live outside the library.

pub mod bluesky;
pub mod json;
pub mod mastodon;
pub mod posts;
pub mod protocol;
pub mod text;
pub mod token;
pub mod twitter;
