//! Errors reported when text is refused as an identifier.
use vstd::prelude::*;

verus! {

/// Why a text was refused as an identifier.
#[derive(Clone, Copy, Debug, PartialEq, Eq, Structural)]
pub enum IdError {
    /// The text is empty.
    Empty,
    /// The text is not a valid server name.
    InvalidServerName,
    /// The text is not a valid user ID.
    InvalidUserId,
    /// The text is not a valid `mxc://` content URI.
    InvalidMxcUri,
}

} // verus!
