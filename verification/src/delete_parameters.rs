//! Caller-supplied parameters of a cascading deletion.

use vstd::prelude::*;
use vstd::string::StringExecFns;

verus! {

/// Identifies the blob to delete: the textual container identifier and the
/// file name under it.
pub struct DeleteBlobParameters {
    pub container_meta_id: String,
    pub file_name: String,
}

impl DeleteBlobParameters {
    /// Empty parameters, to be filled in by the caller.
    pub fn new() -> (r: Self)
        ensures
            r.container_meta_id@ == Seq::<char>::empty(),
            r.file_name@ == Seq::<char>::empty(),
    {
        DeleteBlobParameters { container_meta_id: String::new(), file_name: String::new() }
    }

    /// The blob key: `"{container_meta_id}/{file_name}"`.
    pub fn get_blob_name(&self) -> (r: String)
        ensures
            r@ == self.container_meta_id@ + "/"@ + self.file_name@,
    {
        let mut r = self.container_meta_id.clone();
        r.append("/");
        r.append(self.file_name.as_str());
        r
    }
}

} // verus!
