//! The error taxonomy shared by the parser, the store gateway and the
//! orchestrators.

use vstd::prelude::*;

verus! {

/// Classification of every failure the library surfaces.
///
/// `ParseError` carries the byte offset at which the malformed or
/// unsupported box structure was found.
#[derive(Clone, Copy, Debug, PartialEq, Eq, Structural)]
pub enum ServiceError {
    /// A local file could not be read. Only raised by unverified callers
    /// that wrap the library around real file input.
    IOError,
    /// The container's box tree is malformed or unsupported; the payload is
    /// the byte offset where parsing stopped.
    ParseError(u64),
    /// An upload, download or delete against the blob store failed.
    BlobStoreError,
    /// An insert, update or delete against the metadata store failed,
    /// including identifier-constraint violations.
    PersistenceError,
    /// A lookup by identifier found no row.
    NotFoundError,
}

} // verus!
