//! Account identifiers.
//!
//! An identifier is the 128-bit value of a version-4 UUID. The textual form
//! (the claim subject inside tokens, path parameters, response bodies) is
//! the hyphenated rendering; parsing accepts what the uuid crate accepts.

use vstd::prelude::*;

verus! {

/// The identifier that the uuid crate parses out of `s`, if any. A function
/// of the characters alone.
pub uninterp spec fn uuid_parsed(s: Seq<char>) -> Option<u128>;

/// The hyphenated textual form of an identifier. A function of the
/// identifier alone.
pub uninterp spec fn uuid_text(id: u128) -> Seq<char>;

/// Relies on uuid's `Uuid::new_v4`: a freshly drawn random identifier.
/// Nothing is promised of a random value.
#[verifier::external_body]
pub(crate) fn generate_id() -> (r: u128) {
    uuid::Uuid::new_v4().as_u128()
}

/// Relies on uuid's `Uuid::parse_str`: the outcome depends on the
/// characters alone.
#[verifier::external_body]
pub(crate) fn parse_id(s: &str) -> (r: Option<u128>)
    ensures
        r == uuid_parsed(s@),
{
    match uuid::Uuid::parse_str(s) {
        Ok(u) => Some(u.as_u128()),
        Err(_) => None,
    }
}

/// Relies on uuid's hyphenated `Display` form: formatting is a function of
/// the identifier alone, and `parse_str` accepts the hyphenated form back.
#[verifier::external_body]
pub(crate) fn format_id(id: u128) -> (r: String)
    ensures
        r@ == uuid_text(id),
        uuid_parsed(r@) == Some(id),
{
    uuid::Uuid::from_u128(id).to_string()
}

/// The textual form of an account identifier, as used for claim subjects
/// and response bodies.
pub fn id_to_string(id: u128) -> (r: String)
    ensures
        r@ == uuid_text(id),
        uuid_parsed(r@) == Some(id),
{
    format_id(id)
}

/// Parses an account identifier from its textual form.
pub fn id_from_string(s: &str) -> (r: Option<u128>)
    ensures
        r == uuid_parsed(s@),
{
    parse_id(s)
}

} // verus!
