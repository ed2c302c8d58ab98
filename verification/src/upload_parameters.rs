//! Caller-supplied parameters of an ingestion.

use vstd::prelude::*;

verus! {

/// Where the uploaded bytes come from and under which blob name they are
/// stored.
pub struct UploadFileParameters {
    pub blob_name: String,
    pub file_name: String,
}

impl UploadFileParameters {
    /// Empty parameters, to be filled in by the caller.
    pub fn new() -> (r: Self)
        ensures
            r.blob_name@ == Seq::<char>::empty(),
            r.file_name@ == Seq::<char>::empty(),
    {
        UploadFileParameters { blob_name: String::new(), file_name: String::new() }
    }
}

/// An upload whose payload is an in-memory byte buffer.
pub struct UploadBytesParameters {
    pub blob_name: String,
    pub file_name: String,
    pub bytes: Vec<u8>,
}

impl UploadBytesParameters {
    /// Empty parameters, to be filled in by the caller.
    pub fn new() -> (r: Self)
        ensures
            r.blob_name@ == Seq::<char>::empty(),
            r.file_name@ == Seq::<char>::empty(),
            r.bytes@ == Seq::<u8>::empty(),
    {
        UploadBytesParameters { blob_name: String::new(), file_name: String::new(), bytes: Vec::new() }
    }
}

/// The descriptive metadata the caller supplies for a container: free text
/// plus an ordered tag list whose slots may be absent.
pub struct UploadMetaParameters {
    pub title: String,
    pub description: String,
    pub tags: Vec<Option<String>>,
}

impl UploadMetaParameters {
    /// Empty parameters, to be filled in by the caller.
    pub fn new() -> (r: Self)
        ensures
            r.title@ == Seq::<char>::empty(),
            r.description@ == Seq::<char>::empty(),
            r.tags.deep_view() == Seq::<Option<Seq<char>>>::empty(),
    {
        let r = UploadMetaParameters { title: String::new(), description: String::new(), tags: Vec::new() };
        proof {
            assert(r.tags.deep_view() =~= Seq::<Option<Seq<char>>>::empty());
        }
        r
    }
}

} // verus!
