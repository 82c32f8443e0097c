//! Matrix content URIs, of the form `mxc://server.name/media_id`.
use vstd::prelude::*;
use vstd::std_specs::cmp::PartialEqSpec;

use crate::error::IdError;
use crate::server_name::server_name_accepted;

verus! {

/// The outside validator's error type for content URIs, carried only as far as it is mapped.
#[verifier::external_type_specification]
#[verifier::external_body]
pub struct ExMxcUriError(ruma_identifiers_validation::error::MxcUriError);

/// The scheme that every content URI starts with.
pub open spec fn mxc_scheme() -> Seq<char> {
    seq!['m', 'x', 'c', ':', '/', '/']
}

/// A character that may stand in a media ID: an ASCII letter or digit, `-` or `_`.
pub open spec fn is_media_id_char(c: char) -> bool {
    ('a' <= c && c <= 'z') || ('A' <= c && c <= 'Z') || ('0' <= c && c <= '9') || c == '-'
        || c == '_'
}

/// A Matrix content URI: `mxc://`, a server name that the server-name grammar
/// accepts, the first `/` after the scheme, and a media ID of media-ID characters.
pub open spec fn mxc_uri_accepted(s: Seq<char>) -> bool {
    &&& s.len() >= 6
    &&& s.subrange(0, 6) == mxc_scheme()
    &&& exists|p: int|
        6 <= p < s.len() && #[trigger] s[p] == '/' && (forall|q: int| 6 <= q < p ==> s[q] != '/')
            && (forall|i: int| p < i < s.len() ==> is_media_id_char(#[trigger] s[i]))
            && server_name_accepted(s.subrange(6, p))
}

/// The UTF-8 bytes of `mxc://`.
pub open spec fn mxc_scheme_bytes() -> Seq<u8> {
    seq![0x6du8, 0x78u8, 0x63u8, 0x3au8, 0x2fu8, 0x2fu8]
}

/// The bytes start with `mxc://`, and the first `/` after it stands a
/// multiple of 256, plus 250, bytes past the scheme. The validator stores the
/// media ID's offset in a non-zero `u8`, which wraps to zero on such a text.
pub open spec fn media_offset_wraps(b: Seq<u8>) -> bool {
    &&& b.len() >= 6
    &&& b.subrange(0, 6) == mxc_scheme_bytes()
    &&& exists|p: int|
        6 <= p < b.len() && #[trigger] b[p] == 0x2fu8 && (forall|q: int|
            6 <= q < p ==> b[q] != 0x2fu8) && (p - 6) % 256 == 250
}

/// Tells whether the validator's media-ID offset would wrap on these bytes.
fn offset_wraps(b: &[u8]) -> (r: bool)
    ensures
        r == media_offset_wraps(b@),
{
    if b.len() < 6 {
        return false;
    }
    let scheme = b[0] == 0x6d && b[1] == 0x78 && b[2] == 0x63 && b[3] == 0x3a && b[4] == 0x2f
        && b[5] == 0x2f;
    proof {
        let pre = b@.subrange(0, 6);
        assert(pre[0] == b@[0] && pre[1] == b@[1] && pre[2] == b@[2] && pre[3] == b@[3]
            && pre[4] == b@[4] && pre[5] == b@[5]);
        if scheme {
            assert(pre =~= mxc_scheme_bytes());
        } else {
            assert(pre != mxc_scheme_bytes());
        }
    }
    if !scheme {
        return false;
    }
    let mut i: usize = 6;
    while i < b.len()
        invariant
            6 <= i <= b@.len(),
            b@.subrange(0, 6) == mxc_scheme_bytes(),
            forall|q: int| 6 <= q < i ==> b@[q] != 0x2fu8,
        decreases b@.len() - i,
    {
        if b[i] == 0x2f {
            let r = (i - 6) % 256 == 250;
            proof {
                if !r {
                    assert forall|p: int|
                        6 <= p < b@.len() && #[trigger] b@[p] == 0x2fu8 && (forall|q: int|
                            6 <= q < p ==> b@[q] != 0x2fu8) implies (p - 6) % 256 != 250 by {
                        assert(p == i as int);
                    }
                }
            }
            return r;
        }
        i = i + 1;
    }
    false
}

/// Relies on `ruma_identifiers_validation::mxc_uri::validate`: it strips
/// `mxc://`, splits at the first `/`, checks the media ID's characters and
/// passes the part before the `/` to the server-name validator. The offset of the media ID that it returns on success is dropped here.
/// It panics where that offset wraps to zero, so such texts are left out.
#[verifier::external_body]
fn validate_mxc_uri(s: &str) -> (r: Result<(), ruma_identifiers_validation::error::MxcUriError>)
    requires
        !media_offset_wraps(vstd::utf8::encode_utf8(s@)),
    ensures
        r is Ok <==> mxc_uri_accepted(s@),
{
    match ruma_identifiers_validation::mxc_uri::validate(s) {
        Ok(_) => Ok(()),
        Err(e) => Err(e),
    }
}

/// A Matrix content URI that owns its text.
#[derive(Eq, PartialOrd, Ord, Hash, Debug)]
pub struct MxcUri {
    text: String,
}

impl View for MxcUri {
    type V = Seq<char>;

    closed spec fn view(&self) -> Seq<char> {
        self.text@
    }
}

impl MxcUri {
    #[verifier::type_invariant]
    closed spec fn inv(&self) -> bool {
        mxc_uri_accepted(self.text@)
    }

    /// Validates a text and copies it into a new content URI. A text whose
    /// first `/` after `mxc://` stands 250 bytes (modulo 256) past the scheme
    /// is refused: the validator cannot report its media-ID offset.
    pub fn parse(s: &str) -> (r: Result<MxcUri, IdError>)
        ensures
            r is Ok <==> (mxc_uri_accepted(s@) && !media_offset_wraps(
                vstd::utf8::encode_utf8(s@),
            )),
            r matches Ok(u) ==> u@ == s@,
            r matches Err(e) ==> e == IdError::InvalidMxcUri,
    {
        if offset_wraps(s.as_bytes()) {
            return Err(IdError::InvalidMxcUri);
        }
        match validate_mxc_uri(s) {
            Ok(()) => Ok(MxcUri { text: s.to_owned() }),
            Err(_) => Err(IdError::InvalidMxcUri),
        }
    }

    /// The text of this content URI.
    pub fn as_str(&self) -> (r: &str)
        ensures
            r@ == self@,
            mxc_uri_accepted(r@),
            r@.len() >= 6 && r@.subrange(0, 6) == mxc_scheme(),
    {
        proof {
            use_type_invariant(self);
        }
        self.text.as_str()
    }
}

/// A copy of a content URI holds the same text in a buffer of its own.
impl Clone for MxcUri {
    fn clone(&self) -> (r: MxcUri)
        ensures
            r == *self,
    {
        proof {
            use_type_invariant(self);
        }
        MxcUri { text: self.text.clone() }
    }
}

/// Two content URIs are equal exactly when their texts are.
impl PartialEq for MxcUri {
    fn eq(&self, other: &MxcUri) -> (r: bool) {
        self.text == other.text
    }
}

impl vstd::std_specs::cmp::PartialEqSpecImpl for MxcUri {
    open spec fn obeys_eq_spec() -> bool {
        true
    }

    open spec fn eq_spec(&self, other: &MxcUri) -> bool {
        self@ == other@
    }
}

} // verus!
