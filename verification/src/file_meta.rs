//! A standalone per-file metadata record.

use vstd::prelude::*;

use crate::model::Model;
use crate::runtime::fresh_id;

verus! {

/// Mathematical image of a [`FileMeta`] row.
pub struct FileMetaView {
    pub id: u128,
    pub container_id: u128,
    pub name: Seq<char>,
    pub file_type: i32,
    pub file_size_in_kb: i64,
}

/// Technical metadata of one stored file; `file_type` carries a
/// [`crate::enums::TrackType`] numeric code.
#[derive(Debug, PartialEq)]
pub struct FileMeta {
    pub id: u128,
    pub container_id: u128,
    pub name: String,
    pub file_type: i32,
    pub file_size_in_kb: i64,
}

impl View for FileMeta {
    type V = FileMetaView;

    open spec fn view(&self) -> FileMetaView {
        FileMetaView {
            id: self.id,
            container_id: self.container_id,
            name: self.name@,
            file_type: self.file_type,
            file_size_in_kb: self.file_size_in_kb,
        }
    }
}

impl Clone for FileMeta {
    /// The copy carries the same abstract value.
    fn clone(&self) -> (r: Self)
        ensures
            r@ == self@,
    {
        FileMeta {
            id: self.id,
            container_id: self.container_id,
            name: self.name.clone(),
            file_type: self.file_type,
            file_size_in_kb: self.file_size_in_kb,
        }
    }
}

impl Model for FileMeta {
    open spec fn blank(self) -> bool {
        &&& self.id != 0
        &&& self.container_id != 0
        &&& self@.name == Seq::<char>::empty()
        &&& self.file_type == 0
        &&& self.file_size_in_kb == 0
    }

    /// A draft record with freshly generated (never-nil) identifiers.
    fn new() -> (r: Self)
        ensures
            r.blank(),
    {
        FileMeta {
            id: fresh_id(),
            container_id: fresh_id(),
            name: String::new(),
            file_type: 0,
            file_size_in_kb: 0,
        }
    }
}

} // verus!
