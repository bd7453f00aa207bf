//! Entity ids: 128-bit numbers written as UUID text.

use vstd::prelude::*;

verus! {

/// The error of the `uuid` crate, carried through unread.
#[verifier::external_type_specification]
#[verifier::external_body]
pub struct ExUuidError(uuid::Error);

/// The id that `uuid::Uuid::parse_str` reads from `text`, as the 128-bit
/// number that `Uuid::as_u128` gives for it; nothing where the text is
/// refused.
pub uninterp spec fn parsed_uuid(text: Seq<char>) -> Option<u128>;

/// An id text that is no UUID.
#[derive(Clone, Copy, Debug, PartialEq, Eq, Structural)]
pub struct InvalidId;

/// `uuid::Uuid::parse_str`, the id handed on as its number. Not proved: that
/// the outcome is a function of the text, which `parsed_uuid` names.
#[verifier::external_body]
fn parse_uuid(text: &str) -> (r: Result<u128, uuid::Error>)
    ensures
        match parsed_uuid(text@) {
            Some(id) => r is Ok && r->Ok_0 == id,
            None => r is Err,
        },
{
    match uuid::Uuid::parse_str(text) {
        Ok(id) => Ok(id.as_u128()),
        Err(e) => Err(e),
    }
}

/// Reads an id from its text.
pub fn parse_id(text: &str) -> (r: Result<u128, InvalidId>)
    ensures
        match parsed_uuid(text@) {
            Some(id) => r == Ok::<u128, InvalidId>(id),
            None => r == Err::<u128, InvalidId>(InvalidId),
        },
{
    match parse_uuid(text) {
        Ok(id) => Ok(id),
        Err(_) => Err(InvalidId),
    }
}

} // verus!
