//! Matrix-spec compliant server names.
//!
//! A server name is an IPv4 address, a bracketed IPv6 address or a DNS name,
//! each optionally followed by `:port`. A bare dotted-decimal text such as
//! `127.0.0.1` is made only of host characters, so it is accepted as a bare
//! host; nothing here tells an IPv4 address from a DNS name.
//!
//! The text is validated once, when a value is built; every form of it then
//! carries that guarantee as its type invariant, and conversions between the
//! forms never validate again.
use std::rc::Rc;
use std::sync::Arc;
use vstd::prelude::*;
use vstd::std_specs::cmp::PartialEqSpec;

use crate::error::IdError;

verus! {

/// The outside validator's own error type, carried only as far as it is mapped.
#[verifier::external_type_specification]
#[verifier::external_body]
pub struct ExValidationError(ruma_identifiers_validation::Error);

/// Whether the Matrix server-name grammar accepts the text: an IPv4 address,
/// a bracketed IPv6 address or a DNS name, each with an optional `:port`.
pub uninterp spec fn server_name_accepted(s: Seq<char>) -> bool;

/// A character that may stand in a DNS host name: an ASCII letter or digit, `-` or `.`.
pub open spec fn is_host_char(c: char) -> bool {
    ('a' <= c && c <= 'z') || ('A' <= c && c <= 'Z') || ('0' <= c && c <= '9') || c == '-'
        || c == '.'
}

/// Every character of the text may stand in a DNS host name.
pub open spec fn all_host_chars(s: Seq<char>) -> bool {
    forall|i: int| 0 <= i < s.len() ==> is_host_char(#[trigger] s[i])
}

/// A text that does not open with `[`: a host name or IPv4 address, with an optional port.
pub open spec fn is_unbracketed(s: Seq<char>) -> bool {
    s.len() > 0 && s[0] != '['
}

/// An ASCII decimal digit.
pub open spec fn is_digit(c: char) -> bool {
    '0' <= c && c <= '9'
}

/// The number that a text of decimal digits writes.
pub open spec fn digits_value(t: Seq<char>) -> int
    decreases t.len(),
{
    if t.len() == 0 {
        0
    } else {
        digits_value(t.drop_last()) * 10 + ((t.last() as u32) as int - ('0' as u32) as int)
    }
}

/// A text that `u16`'s `FromStr` accepts: an optional `+`, then one or more
/// decimal digits that write a number no greater than 65535.
pub open spec fn is_port_text(t: Seq<char>) -> bool {
    let d = if t.len() > 0 && t[0] == '+' {
        t.drop_first()
    } else {
        t
    };
    &&& d.len() > 0
    &&& forall|i: int| 0 <= i < d.len() ==> is_digit(#[trigger] d[i])
    &&& digits_value(d) <= 65535
}

/// A non-empty host of host characters, alone or followed by `:` and a port.
/// Host characters hold no `:`, so the `:` here is the first in the text.
pub open spec fn is_host_and_port(s: Seq<char>) -> bool {
    ||| (s.len() > 0 && all_host_chars(s))
    ||| exists|h: int|
        0 < h < s.len() && #[trigger] s[h] == ':' && all_host_chars(s.subrange(0, h))
            && is_port_text(s.subrange(h + 1, s.len() as int))
}

/// Relies on `ruma_identifiers_validation::server_name::validate`: its outcome
/// depends on the text alone; empty text is refused; a text that does not
/// start with `[` is accepted exactly when the part before its first `:` (or
/// the whole text) is non-empty and made of ASCII letters, digits, `-` and
/// `.`, and what follows that `:`, if any, parses as a `u16`.
#[verifier::external_body]
fn validate_server_name(s: &str) -> (r: Result<(), ruma_identifiers_validation::Error>)
    ensures
        r is Ok <==> server_name_accepted(s@),
        s@.len() == 0 ==> r is Err,
        is_unbracketed(s@) ==> (r is Ok <==> is_host_and_port(s@)),
{
    ruma_identifiers_validation::server_name::validate(s)
}

/// Compares two texts byte by byte; equal encodings mean equal texts.
fn same_text(a: &str, b: &str) -> (r: bool)
    ensures
        r == (a@ == b@),
{
    let x = a.as_bytes();
    let y = b.as_bytes();
    proof {
        vstd::utf8::encode_utf8_decode_utf8(a@);
        vstd::utf8::encode_utf8_decode_utf8(b@);
    }
    if x.len() != y.len() {
        return false;
    }
    let mut i: usize = 0;
    while i < x.len()
        invariant
            x@.len() == y@.len(),
            x@ == vstd::utf8::encode_utf8(a@),
            y@ == vstd::utf8::encode_utf8(b@),
            0 <= i <= x@.len(),
            forall|j: int| 0 <= j < i ==> x@[j] == y@[j],
        decreases x@.len() - i,
    {
        if x[i] != y[i] {
            return false;
        }
        i = i + 1;
    }
    proof {
        assert(x@ =~= y@);
    }
    true
}

/// The error reported for a text that the grammar refuses.
pub open spec fn refusal(s: Seq<char>) -> IdError {
    if s.len() == 0 {
        IdError::Empty
    } else {
        IdError::InvalidServerName
    }
}

/// Checks `s` against the server-name grammar, mapping a refusal to the
/// library's own error.
fn check(s: &str) -> (r: Result<(), IdError>)
    ensures
        r is Ok <==> server_name_accepted(s@),
        r matches Err(e) ==> e == refusal(s@),
        s@.len() == 0 ==> r is Err,
        is_unbracketed(s@) ==> (r is Ok <==> is_host_and_port(s@)),
{
    match validate_server_name(s) {
        Ok(()) => Ok(()),
        Err(_) => {
            if s.is_empty() {
                Err(IdError::Empty)
            } else {
                Err(IdError::InvalidServerName)
            }
        },
    }
}

/// A Matrix-spec compliant server name that owns its text.
#[derive(Eq, PartialOrd, Ord, Hash, Debug)]
pub struct ServerName {
    text: String,
}

impl View for ServerName {
    type V = Seq<char>;

    closed spec fn view(&self) -> Seq<char> {
        self.text@
    }
}

impl ServerName {
    #[verifier::type_invariant]
    closed spec fn inv(&self) -> bool {
        &&& server_name_accepted(self.text@)
        &&& self.text@.len() > 0
    }

    /// Validates a borrowed text and copies it into a new server name.
    pub fn parse(s: &str) -> (r: Result<ServerName, IdError>)
        ensures
            r is Ok <==> server_name_accepted(s@),
            r matches Ok(n) ==> n@ == s@,
            r matches Err(e) ==> e == refusal(s@),
            s@.len() == 0 ==> r is Err,
            is_unbracketed(s@) ==> (r is Ok <==> is_host_and_port(s@)),
    {
        match check(s) {
            Ok(()) => Ok(ServerName { text: s.to_owned() }),
            Err(e) => Err(e),
        }
    }

    /// Validates an owned text and takes over its buffer.
    pub fn from_string(s: String) -> (r: Result<ServerName, IdError>)
        ensures
            r is Ok <==> server_name_accepted(s@),
            r matches Ok(n) ==> n@ == s@,
            r matches Err(e) ==> e == refusal(s@),
            s@.len() == 0 ==> r is Err,
            is_unbracketed(s@) ==> (r is Ok <==> is_host_and_port(s@)),
    {
        match check(s.as_str()) {
            Ok(()) => Ok(ServerName { text: s }),
            Err(e) => Err(e),
        }
    }

    /// Creates a string slice from this server name.
    pub fn as_str(&self) -> (r: &str)
        ensures
            r@ == self@,
            server_name_accepted(r@),
            r@.len() > 0,
    {
        proof {
            use_type_invariant(self);
        }
        self.text.as_str()
    }

    /// Copies the text into a new uniquely owned server name.
    pub fn to_owned(&self) -> (r: ServerName)
        ensures
            r@ == self@,
    {
        self.clone()
    }

    /// Renders the server name: exactly the text it was built from.
    pub fn to_string(&self) -> (r: String)
        ensures
            r@ == self@,
            server_name_accepted(r@),
            r@.len() > 0,
    {
        proof {
            use_type_invariant(self);
        }
        self.text.clone()
    }

    /// Borrows this server name as a view that copies nothing.
    pub fn as_ref(&self) -> (r: ServerNameRef<'_>)
        ensures
            r@ == self@,
    {
        proof {
            use_type_invariant(self);
        }
        ServerNameRef { text: self.text.as_str() }
    }

    /// Copies the text into a new allocation shared within one thread.
    pub fn to_rc(&self) -> (r: Rc<ServerName>)
        ensures
            r@ == self@,
    {
        Rc::new(self.clone())
    }

    /// Copies the text into a new allocation that may be shared across threads.
    pub fn to_arc(&self) -> (r: Arc<ServerName>)
        ensures
            r@ == self@,
    {
        Arc::new(self.clone())
    }

    /// Gives up the validated type and hands the same buffer back as plain text.
    pub fn into_string(self) -> (r: String)
        ensures
            r@ == self@,
    {
        self.text
    }

    /// Creates a byte slice from this server name: its UTF-8 encoding.
    pub fn as_bytes(&self) -> (r: &[u8])
        ensures
            r@ == vstd::utf8::encode_utf8(self@),
            r@.len() > 0,
    {
        proof {
            use_type_invariant(self);
            vstd::utf8::encode_utf8_first_scalar(self@);
        }
        self.text.as_str().as_bytes()
    }
}

/// A server name borrowed from text that the caller still owns.
#[derive(Clone, Copy, Eq, PartialOrd, Ord, Hash, Debug)]
pub struct ServerNameRef<'a> {
    text: &'a str,
}

impl<'a> View for ServerNameRef<'a> {
    type V = Seq<char>;

    closed spec fn view(&self) -> Seq<char> {
        self.text@
    }
}

impl<'a> ServerNameRef<'a> {
    #[verifier::type_invariant]
    closed spec fn inv(&self) -> bool {
        &&& server_name_accepted(self.text@)
        &&& self.text@.len() > 0
    }

    /// Validates a borrowed text and views it as a server name, copying nothing.
    pub fn parse(s: &'a str) -> (r: Result<ServerNameRef<'a>, IdError>)
        ensures
            r is Ok <==> server_name_accepted(s@),
            r matches Ok(n) ==> n@ == s@,
            r matches Err(e) ==> e == refusal(s@),
            s@.len() == 0 ==> r is Err,
            is_unbracketed(s@) ==> (r is Ok <==> is_host_and_port(s@)),
    {
        match check(s) {
            Ok(()) => Ok(ServerNameRef { text: s }),
            Err(e) => Err(e),
        }
    }

    /// The borrowed text, for as long as the caller's text lives.
    pub fn as_str(&self) -> (r: &'a str)
        ensures
            r@ == self@,
            server_name_accepted(r@),
            r@.len() > 0,
    {
        proof {
            use_type_invariant(self);
        }
        self.text
    }

    /// Copies the text into a new uniquely owned server name.
    pub fn to_owned(&self) -> (r: ServerName)
        ensures
            r@ == self@,
    {
        proof {
            use_type_invariant(self);
        }
        ServerName { text: self.text.to_owned() }
    }

    /// Renders the server name: exactly the text it was built from.
    pub fn to_string(&self) -> (r: String)
        ensures
            r@ == self@,
            server_name_accepted(r@),
            r@.len() > 0,
    {
        proof {
            use_type_invariant(self);
        }
        self.text.to_owned()
    }

    /// Copies the text into a new allocation shared within one thread.
    pub fn to_rc(&self) -> (r: Rc<ServerName>)
        ensures
            r@ == self@,
    {
        Rc::new(self.to_owned())
    }

    /// Copies the text into a new allocation that may be shared across threads.
    pub fn to_arc(&self) -> (r: Arc<ServerName>)
        ensures
            r@ == self@,
    {
        Arc::new(self.to_owned())
    }
}

/// A copy of a server name holds the same text in a buffer of its own.
impl Clone for ServerName {
    fn clone(&self) -> (r: ServerName)
        ensures
            r == *self,
    {
        proof {
            use_type_invariant(self);
        }
        ServerName { text: self.text.clone() }
    }
}

/// The generic parse entry point: the same as [`ServerName::parse`].
impl std::str::FromStr for ServerName {
    type Err = IdError;

    fn from_str(s: &str) -> (r: Result<ServerName, IdError>)
        ensures
            r is Ok <==> server_name_accepted(s@),
            r matches Ok(n) ==> n@ == s@,
            r matches Err(e) ==> e == refusal(s@),
            s@.len() == 0 ==> r is Err,
            is_unbracketed(s@) ==> (r is Ok <==> is_host_and_port(s@)),
    {
        ServerName::parse(s)
    }
}

/// Two server names are equal exactly when their texts are.
impl PartialEq for ServerName {
    fn eq(&self, other: &ServerName) -> (r: bool) {
        self.text == other.text
    }
}

impl vstd::std_specs::cmp::PartialEqSpecImpl for ServerName {
    open spec fn obeys_eq_spec() -> bool {
        true
    }

    open spec fn eq_spec(&self, other: &ServerName) -> bool {
        self@ == other@
    }
}

/// Two borrowed server names are equal exactly when their texts are.
impl<'a, 'b> PartialEq<ServerNameRef<'b>> for ServerNameRef<'a> {
    fn eq(&self, other: &ServerNameRef<'b>) -> (r: bool) {
        same_text(self.text, other.text)
    }
}

impl<'a, 'b> vstd::std_specs::cmp::PartialEqSpecImpl<ServerNameRef<'b>> for ServerNameRef<'a> {
    open spec fn obeys_eq_spec() -> bool {
        true
    }

    open spec fn eq_spec(&self, other: &ServerNameRef<'b>) -> bool {
        self@ == other@
    }
}

/// A borrowed and an owned server name are equal exactly when their texts are.
impl<'a> PartialEq<ServerName> for ServerNameRef<'a> {
    fn eq(&self, other: &ServerName) -> (r: bool) {
        same_text(self.text, other.text.as_str())
    }
}

impl<'a> vstd::std_specs::cmp::PartialEqSpecImpl<ServerName> for ServerNameRef<'a> {
    open spec fn obeys_eq_spec() -> bool {
        true
    }

    open spec fn eq_spec(&self, other: &ServerName) -> bool {
        self@ == other@
    }
}

/// An owned and a borrowed server name are equal exactly when their texts are.
impl<'a> PartialEq<ServerNameRef<'a>> for ServerName {
    fn eq(&self, other: &ServerNameRef<'a>) -> (r: bool) {
        same_text(self.text.as_str(), other.text)
    }
}

impl<'a> vstd::std_specs::cmp::PartialEqSpecImpl<ServerNameRef<'a>> for ServerName {
    open spec fn obeys_eq_spec() -> bool {
        true
    }

    open spec fn eq_spec(&self, other: &ServerNameRef<'a>) -> bool {
        self@ == other@
    }
}

/// A server name and a plain text are equal exactly when the texts are.
impl PartialEq<str> for ServerName {
    fn eq(&self, other: &str) -> (r: bool) {
        same_text(self.text.as_str(), other)
    }
}

impl vstd::std_specs::cmp::PartialEqSpecImpl<str> for ServerName {
    open spec fn obeys_eq_spec() -> bool {
        true
    }

    open spec fn eq_spec(&self, other: &str) -> bool {
        self@ == other@
    }
}

impl PartialEq<String> for ServerName {
    fn eq(&self, other: &String) -> (r: bool) {
        same_text(self.text.as_str(), other.as_str())
    }
}

impl vstd::std_specs::cmp::PartialEqSpecImpl<String> for ServerName {
    open spec fn obeys_eq_spec() -> bool {
        true
    }

    open spec fn eq_spec(&self, other: &String) -> bool {
        self@ == other@
    }
}

impl PartialEq<ServerName> for str {
    fn eq(&self, other: &ServerName) -> (r: bool) {
        same_text(self, other.text.as_str())
    }
}

impl vstd::std_specs::cmp::PartialEqSpecImpl<ServerName> for str {
    open spec fn obeys_eq_spec() -> bool {
        true
    }

    open spec fn eq_spec(&self, other: &ServerName) -> bool {
        self@ == other@
    }
}

impl PartialEq<ServerName> for String {
    fn eq(&self, other: &ServerName) -> (r: bool) {
        same_text(self.as_str(), other.text.as_str())
    }
}

impl vstd::std_specs::cmp::PartialEqSpecImpl<ServerName> for String {
    open spec fn obeys_eq_spec() -> bool {
        true
    }

    open spec fn eq_spec(&self, other: &ServerName) -> bool {
        self@ == other@
    }
}

/// The borrowed, uniquely owned and both shared forms of one text all
/// compare equal to one another: equality goes by the text alone.
pub proof fn lemma_forms_agree(
    s: Seq<char>,
    borrowed: ServerNameRef<'_>,
    unique: ServerName,
    local: Rc<ServerName>,
    shared: Arc<ServerName>,
)
    requires
        borrowed@ == s,
        unique@ == s,
        local@ == s,
        shared@ == s,
    ensures
        unique.eq_spec(&*local),
        unique.eq_spec(&*shared),
        (*local).eq_spec(&*shared),
        borrowed.eq_spec(&unique),
        unique.eq_spec(&borrowed),
        borrowed.eq_spec(&*local),
        borrowed.eq_spec(&*shared),
{
}

} // verus!
