//! The creation of a document.

use crate::codec::empty_snapshot;
use crate::codec::is_saved_document;
use crate::error::AppError;
use crate::error::AppResult;
use vstd::prelude::*;

verus! {

/// What the store is given for a new document.
#[derive(Debug, Clone, PartialEq, Eq)]
pub struct NewDocument {
    pub title: String,
    /// The snapshot of the empty document.
    pub snapshot: Vec<u8>,
}

/// The document to create under `title` with the first snapshot
/// `snapshot`. An empty title is a bad request.
pub fn document_with(title: &str, snapshot: Vec<u8>) -> (created: AppResult<NewDocument>)
    ensures
        title@.len() == 0 ==> created matches Err(AppError::BadRequest),
        title@.len() > 0 ==> (created matches Ok(document) && document.title@ == title@
            && document.snapshot@ == snapshot@),
{
    if title.unicode_len() == 0 {
        Err(AppError::BadRequest)
    } else {
        Ok(NewDocument { title: title.to_owned(), snapshot })
    }
}

/// The document to create under `title`, with the engine's empty snapshot.
/// An empty title is a bad request.
pub fn create_document(title: &str) -> (created: AppResult<NewDocument>)
    ensures
        title@.len() == 0 ==> created matches Err(AppError::BadRequest),
        title@.len() > 0 ==> (created matches Ok(document) && document.title@ == title@
            && is_saved_document(document.snapshot@)),
{
    if title.unicode_len() == 0 {
        Err(AppError::BadRequest)
    } else {
        document_with(title, empty_snapshot())
    }
}

} // verus!
