//! Identifiers of documents and connections: 128-bit values, written as
//! UUIDs.

use crate::error::AppError;
use crate::error::AppResult;
use uuid::Uuid;
use vstd::prelude::*;

verus! {

/// The identifier that `text` denotes as a UUID (in plain, hyphenated, URN
/// or braced form), if it denotes one.
pub uninterp spec fn uuid_of_text(text: Seq<char>) -> Option<u128>;

/// The bits of an identifier that hold a UUID's version and variant.
pub const VERSION_BITS: u128 = 0x0000_0000_0000_f000_c000_0000_0000_0000;

/// The version and variant bits of a random UUID: version 4, variant 10.
pub const RANDOM_VERSION: u128 = 0x0000_0000_0000_4000_8000_0000_0000_0000;

/// `Uuid::parse_str`, the UUID taken as its 128-bit value: what `text`
/// denotes, or nothing where it is no UUID.
#[verifier::external_body]
fn parse_uuid(text: &str) -> (parsed: Option<u128>)
    ensures
        parsed == uuid_of_text(text@),
{
    Uuid::parse_str(text).ok().map(|id| id.as_u128())
}

/// `Uuid::new_v4`, the UUID taken as its 128-bit value: random but for the
/// version and variant bits, which are those of a random UUID.
#[verifier::external_body]
fn random_uuid() -> (id: u128)
    ensures
        id & VERSION_BITS == RANDOM_VERSION,
{
    Uuid::new_v4().as_u128()
}

/// The document that a request names, given what its identifier parsed to:
/// a malformed identifier is a bad request.
pub fn document_id(parsed: Option<u128>) -> (id: AppResult<u128>)
    ensures
        match parsed {
            Some(value) => id matches Ok(found) && found == value,
            None => id matches Err(AppError::BadRequest),
        },
{
    match parsed {
        Some(value) => Ok(value),
        None => Err(AppError::BadRequest),
    }
}

/// Reads the identifier of a document from the text of a request.
pub fn parse_document_id(text: &str) -> (id: AppResult<u128>)
    ensures
        match uuid_of_text(text@) {
            Some(value) => id matches Ok(found) && found == value,
            None => id matches Err(AppError::BadRequest),
        },
{
    document_id(parse_uuid(text))
}

/// A new identifier for a connection: a random UUID.
pub fn new_connection_id() -> (id: u128)
    ensures
        id & VERSION_BITS == RANDOM_VERSION,
{
    random_uuid()
}

} // verus!
