//! Caller-supplied parameters of a blob download.

use vstd::prelude::*;
use vstd::string::StringExecFns;

verus! {

/// Identifies the blob to download: the textual container identifier and the
/// file name under it.
pub struct DownloadBlobParameters {
    pub container_meta_id: String,
    pub file_name: String,
}

impl DownloadBlobParameters {
    /// Empty parameters, to be filled in by the caller.
    pub fn new() -> (r: Self)
        ensures
            r.container_meta_id@ == Seq::<char>::empty(),
            r.file_name@ == Seq::<char>::empty(),
    {
        DownloadBlobParameters { container_meta_id: String::new(), file_name: String::new() }
    }

    /// The blob key: `"{container_meta_id}/{file_name}"`.
    pub fn get_blob_name(&self) -> (r: String)
        ensures
            r@ == self.container_meta_id@ + "/"@ + self.file_name@,
    {
        let mut r = self.container_meta_id.clone();
        r.append("/");
        r.append(self.file_name.as_str());
        r
    }
}

} // verus!
