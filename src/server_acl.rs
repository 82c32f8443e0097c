//! The payload of the `m.room.server_acl` state event.
use vstd::prelude::*;

verus! {

/// Which servers may take part in a room.
///
/// The entries of `allow` and `deny` are wildcard patterns, not server names:
/// `*` matches zero or more characters and `?` exactly one. They are kept as
/// plain text and never pass through the server-name grammar.
#[derive(Clone, Debug)]
#[non_exhaustive]
pub struct ServerAclEventContent {
    /// True to allow server names that are IP address literals, false to deny them.
    pub allow_ip_literals: bool,
    /// Patterns of the server names to allow, without port. An empty list allows no server.
    pub allow: Vec<String>,
    /// Patterns of the server names to deny, without port.
    pub deny: Vec<String>,
}

impl ServerAclEventContent {
    /// Creates a payload from the IP-literal flag and the allowed and denied patterns.
    pub fn new(allow_ip_literals: bool, allow: Vec<String>, deny: Vec<String>) -> (r: Self)
        ensures
            r.allow_ip_literals == allow_ip_literals,
            r.allow == allow,
            r.deny == deny,
    {
        ServerAclEventContent { allow_ip_literals, allow, deny }
    }
}

/// The payload that an event with none of the fields present stands for:
/// IP literals allowed, and both lists empty.
impl Default for ServerAclEventContent {
    fn default() -> (r: Self)
        ensures
            r.allow_ip_literals,
            r.allow@.len() == 0,
            r.deny@.len() == 0,
    {
        ServerAclEventContent { allow_ip_literals: true, allow: Vec::new(), deny: Vec::new() }
    }
}

} // verus!
