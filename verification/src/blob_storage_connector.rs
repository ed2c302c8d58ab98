//! The pluggable blob-storage interface.

use vstd::prelude::*;

use crate::error::ServiceError;

verus! {

/// Operations a blob-storage backend offers; implementations are supplied
/// by the embedding application.
pub trait BlobStorageConnector {
    /// Uploads the file at `file_path` to the backend.
    fn upload_blob(file_path: &str) -> Result<(), ServiceError>;

    /// Downloads a blob into the file at `file_path`.
    fn download_blob(file_path: &str) -> Result<(), ServiceError>;

    /// Deletes the blob.
    fn delete_blob() -> Result<(), ServiceError>;
}

} // verus!
