//! The request and response of `GET /_matrix/client/r0/profile/{userId}`.
use vstd::prelude::*;

use crate::error::IdError;
use crate::mxc_uri::{media_offset_wraps, mxc_uri_accepted, MxcUri};
use crate::user_id::UserId;

verus! {

/// Asks for all profile information of a user.
#[derive(Clone, Copy, Debug)]
pub struct Request<'a> {
    /// The user whose profile will be retrieved.
    pub user_id: &'a UserId,
}

impl<'a> Request<'a> {
    /// Creates a request for the profile of the given user.
    pub fn new(user_id: &'a UserId) -> (r: Self)
        ensures
            r.user_id == user_id,
    {
        Request { user_id }
    }
}

/// The profile information of a user; each field may be absent.
#[derive(Clone, Debug)]
pub struct Response {
    /// The user's avatar URL, if set.
    pub avatar_url: Option<MxcUri>,
    /// The user's display name, if set: free text, not validated.
    pub displayname: Option<String>,
    /// The BlurHash of the avatar that `avatar_url` points to, if set.
    pub blurhash: Option<String>,
}

impl Response {
    /// Creates a response with the given avatar URL and display name, and no BlurHash.
    pub fn new(avatar_url: Option<MxcUri>, displayname: Option<String>) -> (r: Self)
        ensures
            r.avatar_url == avatar_url,
            r.displayname == displayname,
            r.blurhash is None,
    {
        Response { avatar_url, displayname, blurhash: None }
    }
}

/// A response with every field absent.
impl Default for Response {
    fn default() -> (r: Self)
        ensures
            r.avatar_url is None,
            r.displayname is None,
            r.blurhash is None,
    {
        Response { avatar_url: None, displayname: None, blurhash: None }
    }
}

/// Reads the avatar URL of a payload. An absent field gives `None`. With
/// `empty_as_absent` (the compatibility mode) an empty string gives `None`
/// too; any other text must be a content URI that [`MxcUri::parse`] accepts.
pub fn avatar_url_from_wire(field: Option<&str>, empty_as_absent: bool) -> (r: Result<
    Option<MxcUri>,
    IdError,
>)
    ensures
        match field {
            None => r == Ok::<Option<MxcUri>, IdError>(None),
            Some(t) => if empty_as_absent && t@.len() == 0 {
                r == Ok::<Option<MxcUri>, IdError>(None)
            } else {
                &&& r is Ok <==> (mxc_uri_accepted(t@) && !media_offset_wraps(
                    vstd::utf8::encode_utf8(t@),
                ))
                &&& r matches Ok(u) ==> (u matches Some(m) && m@ == t@)
                &&& r matches Err(e) ==> e == IdError::InvalidMxcUri
            },
        },
{
    match field {
        None => Ok(None),
        Some(t) => {
            if empty_as_absent && t.is_empty() {
                Ok(None)
            } else {
                match MxcUri::parse(t) {
                    Ok(m) => Ok(Some(m)),
                    Err(e) => Err(e),
                }
            }
        },
    }
}

} // verus!
