//! Validated Matrix identifiers and the payload types that carry them.
//!
//! A server name is checked against the Matrix grammar once, when it is
//! built, and every form of it (borrowed, uniquely owned, shared within a
//! thread, shared across threads) keeps that guarantee for its lifetime.

pub mod error;
pub mod mxc_uri;
pub mod profile;
pub mod server_acl;
pub mod server_name;
pub mod user_id;
