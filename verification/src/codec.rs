//! The CRDT engine behind the documents, used as an opaque codec: it makes
//! the empty snapshot and validates change payloads.
//!
//! Folding changes into a document is not done here. On a change that it
//! has decoded the engine may still fail in a way that only the caller of
//! the merge can contain, so the merge asks its driver for the fold and
//! takes the answer as a value.

use crate::error::AppError;
use crate::error::AppResult;
use automerge::AutoCommit;
use automerge::Change;
use vstd::prelude::*;

verus! {

/// `automerge::AutoCommit`, a document of the engine, held as an opaque
/// value.
#[verifier::external_type_specification]
#[verifier::external_body]
pub struct ExAutoCommit(AutoCommit);

/// Whether `bytes` parse as one change of the engine.
pub uninterp spec fn change_decodes(bytes: Seq<u8>) -> bool;

/// The document `doc` as a snapshot.
pub uninterp spec fn snapshot_of(doc: AutoCommit) -> Seq<u8>;

/// `AutoCommit::new`: a document without changes.
#[verifier::external_body]
pub(crate) fn new_document() -> AutoCommit {
    AutoCommit::new()
}

/// `Change::from_bytes`: whether `bytes` hold a change, and if not the
/// engine's description of why. Whether they do depends on the bytes
/// alone.
#[verifier::external_body]
pub(crate) fn decode_change(bytes: &Vec<u8>) -> (decoded: Result<(), String>)
    ensures
        decoded is Ok <==> change_decodes(bytes@),
{
    Change::from_bytes(bytes.clone()).map(|_| ()).map_err(|e| e.to_string())
}

/// `AutoCommit::save`: the document as a snapshot, which depends on the
/// document alone.
#[verifier::external_body]
pub(crate) fn save_document(doc: &mut AutoCommit) -> (saved: Vec<u8>)
    ensures
        saved@ == snapshot_of(*old(doc)),
{
    doc.save()
}

/// Whether `snapshot` is what the engine saves some document as.
pub open spec fn is_saved_document(snapshot: Seq<u8>) -> bool {
    exists|doc: AutoCommit| #[trigger] snapshot_of(doc) == snapshot
}

/// The snapshot of a document to which nothing has been done yet: what the
/// engine saves a new document as.
pub fn empty_snapshot() -> (snapshot: Vec<u8>)
    ensures
        is_saved_document(snapshot@),
{
    let mut doc = new_document();
    save_document(&mut doc)
}

/// Whether `bytes` are a change that the engine accepts.
pub fn is_valid_change(bytes: &Vec<u8>) -> (valid: bool)
    ensures
        valid == change_decodes(bytes@),
{
    decode_change(bytes).is_ok()
}

/// What an inbound payload is answered with before it reaches the store,
/// given whether it decoded: a malformed one is a bad request.
pub fn admit_decoded(decoded: bool) -> (admitted: AppResult<()>)
    ensures
        decoded ==> admitted is Ok,
        !decoded ==> admitted matches Err(AppError::BadRequest),
{
    if decoded {
        Ok(())
    } else {
        Err(AppError::BadRequest)
    }
}

/// Validates an inbound payload: one that does not decode is a bad request.
pub fn admit_change(bytes: &Vec<u8>) -> (admitted: AppResult<()>)
    ensures
        change_decodes(bytes@) ==> admitted is Ok,
        !change_decodes(bytes@) ==> admitted matches Err(AppError::BadRequest),
{
    admit_decoded(is_valid_change(bytes))
}

} // verus!
