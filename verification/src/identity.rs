//! Identities: the byte strings of principals, by which scores are kept.

use crate::text::bytes_equal;
use vstd::prelude::*;
use vstd::utf8::encode_utf8;

verus! {

/// The identity of a user or an account: the bytes of its principal.
#[derive(Debug)]
pub struct Identity {
    bytes: Vec<u8>,
}

impl View for Identity {
    type V = Seq<u8>;

    /// The bytes of the identity.
    closed spec fn view(&self) -> Seq<u8> {
        self.bytes@
    }
}

/// The bytes of the longest text that spells a principal: 29 bytes behind a
/// checksum of 4, which are 53 characters in base 32, with a dash after every
/// fifth of them.
pub const PRINCIPAL_TEXT_MAX: usize = 63;

/// What the principal parser makes of a text: the bytes of the principal
/// that it spells, or `None` where it spells none. The parser is only ever
/// handed a text of at most `PRINCIPAL_TEXT_MAX` bytes.
pub uninterp spec fn principal_of_text(text: Seq<char>) -> Option<Seq<u8>>;

/// The bytes of the principal that a text spells, or `None` where it spells
/// none. A text of more than `PRINCIPAL_TEXT_MAX` bytes spells none, and is
/// not handed to the parser.
pub open spec fn principal_spelled(text: Seq<char>) -> Option<Seq<u8>> {
    if encode_utf8(text).len() > PRINCIPAL_TEXT_MAX {
        None
    } else {
        principal_of_text(text)
    }
}

/// The bytes of the anonymous principal: the one byte 4.
pub open spec fn anonymous_bytes() -> Seq<u8> {
    seq![4u8]
}

/// The identity under which the score of `address` is kept: the principal
/// that the address spells, and the anonymous one where it spells none.
pub open spec fn identity_of_address(address: Seq<char>) -> Seq<u8> {
    match principal_spelled(address) {
        Some(bytes) => bytes,
        None => anonymous_bytes(),
    }
}

/// Trusted: calls `candid::Principal::from_text`, drops the error, and takes
/// the bytes of the principal with `as_slice`. The contract claims only that
/// the outcome is a function of the text, the one named `principal_of_text`.
/// The parser decodes base 32 and may panic on a text too long for the
/// decoder's length arithmetic, so a longer text than any principal has is
/// left out.
#[verifier::external_body]
fn principal_from_text(text: &str) -> (r: Option<Vec<u8>>)
    requires
        encode_utf8(text@).len() <= PRINCIPAL_TEXT_MAX,
    ensures
        match r {
            Some(bytes) => principal_of_text(text@) == Some(bytes@),
            None => principal_of_text(text@) is None,
        },
{
    candid::Principal::from_text(text).ok().map(|p| p.as_slice().to_vec())
}

/// Trusted: calls `candid::Principal::anonymous` and takes its bytes with
/// `as_slice`. The contract claims that they are the single byte 4.
#[verifier::external_body]
fn anonymous_principal() -> (r: Vec<u8>)
    ensures
        r@ == anonymous_bytes(),
{
    candid::Principal::anonymous().as_slice().to_vec()
}

impl Identity {
    /// The identity with the given bytes.
    pub fn from_bytes(bytes: Vec<u8>) -> (r: Identity)
        ensures
            r@ == bytes@,
    {
        Identity { bytes }
    }

    /// The bytes of the identity.
    pub fn as_bytes(&self) -> (r: &Vec<u8>)
        ensures
            r@ == self@,
    {
        &self.bytes
    }

    /// Whether two identities are the same.
    pub fn same_as(&self, other: &Identity) -> (r: bool)
        ensures
            r == (self@ == other@),
    {
        bytes_equal(self.bytes.as_slice(), other.bytes.as_slice())
    }

    /// The anonymous identity.
    pub fn anonymous() -> (r: Identity)
        ensures
            r@ == anonymous_bytes(),
    {
        Identity { bytes: anonymous_principal() }
    }

    /// The identity that a text spells, where it spells a principal. A text
    /// of more than `PRINCIPAL_TEXT_MAX` bytes spells none.
    pub fn from_text(text: &str) -> (r: Option<Identity>)
        ensures
            match r {
                Some(id) => principal_spelled(text@) == Some(id@),
                None => principal_spelled(text@) is None,
            },
    {
        if text.as_bytes().len() > PRINCIPAL_TEXT_MAX {
            return None;
        }
        match principal_from_text(text) {
            Some(bytes) => Some(Identity { bytes }),
            None => None,
        }
    }

    /// The given identity, and the anonymous one in place of none.
    pub fn or_anonymous(parsed: Option<Identity>) -> (r: Identity)
        ensures
            r@ == match parsed {
                Some(id) => id@,
                None => anonymous_bytes(),
            },
    {
        match parsed {
            Some(id) => id,
            None => Identity::anonymous(),
        }
    }

    /// The identity under which the score of `address` is kept.
    pub fn for_address(address: &str) -> (r: Identity)
        ensures
            r@ == identity_of_address(address@),
    {
        Identity::or_anonymous(Identity::from_text(address))
    }
}

} // verus!
