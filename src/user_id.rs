//! Matrix user IDs, of the form `@localpart:server.name`.
use vstd::prelude::*;
use vstd::std_specs::cmp::PartialEqSpec;

use crate::error::IdError;
use crate::server_name::server_name_accepted;

verus! {

/// The longest identifier, in UTF-8 bytes.
pub const ID_MAX_BYTES: usize = 255;

/// A Matrix user ID as clients may use it: at most 255 bytes, `@` first, a
/// `:` after the localpart, no NUL in the localpart, and a server name that
/// the server-name grammar accepts after the first `:`.
pub open spec fn user_id_accepted(s: Seq<char>) -> bool {
    &&& vstd::utf8::encode_utf8(s).len() <= ID_MAX_BYTES
    &&& s.len() > 0
    &&& s[0] == '@'
    &&& exists|c: int|
        0 < c < s.len() && #[trigger] s[c] == ':' && (forall|q: int| 0 <= q < c ==> s[q] != ':')
            && (forall|q: int| 1 <= q < c ==> s[q] != '\0')
            && server_name_accepted(s.subrange(c + 1, s.len() as int))
}

/// Relies on `ruma_identifiers_validation::user_id::validate` (with the
/// crate's length limit on): it checks the length and the leading `@`, finds
/// the first `:`, validates the server name after it and refuses a NUL or
/// `:` in the localpart before it.
#[verifier::external_body]
fn validate_user_id(s: &str) -> (r: Result<(), ruma_identifiers_validation::Error>)
    ensures
        r is Ok <==> user_id_accepted(s@),
{
    ruma_identifiers_validation::user_id::validate(s)
}

/// A Matrix user ID that owns its text.
#[derive(Eq, PartialOrd, Ord, Hash, Debug)]
pub struct UserId {
    text: String,
}

impl View for UserId {
    type V = Seq<char>;

    closed spec fn view(&self) -> Seq<char> {
        self.text@
    }
}

impl UserId {
    #[verifier::type_invariant]
    closed spec fn inv(&self) -> bool {
        user_id_accepted(self.text@)
    }

    /// Validates a text and copies it into a new user ID.
    pub fn parse(s: &str) -> (r: Result<UserId, IdError>)
        ensures
            r is Ok <==> user_id_accepted(s@),
            r matches Ok(u) ==> u@ == s@,
            r matches Err(e) ==> e == IdError::InvalidUserId,
    {
        match validate_user_id(s) {
            Ok(()) => Ok(UserId { text: s.to_owned() }),
            Err(_) => Err(IdError::InvalidUserId),
        }
    }

    /// The text of this user ID.
    pub fn as_str(&self) -> (r: &str)
        ensures
            r@ == self@,
            user_id_accepted(r@),
            r@.len() > 0 && r@[0] == '@',
    {
        proof {
            use_type_invariant(self);
        }
        self.text.as_str()
    }
}

/// A copy of a user ID holds the same text in a buffer of its own.
impl Clone for UserId {
    fn clone(&self) -> (r: UserId)
        ensures
            r == *self,
    {
        proof {
            use_type_invariant(self);
        }
        UserId { text: self.text.clone() }
    }
}

/// Two user IDs are equal exactly when their texts are.
impl PartialEq for UserId {
    fn eq(&self, other: &UserId) -> (r: bool) {
        self.text == other.text
    }
}

impl vstd::std_specs::cmp::PartialEqSpecImpl for UserId {
    open spec fn obeys_eq_spec() -> bool {
        true
    }

    open spec fn eq_spec(&self, other: &UserId) -> bool {
        self@ == other@
    }
}

} // verus!
