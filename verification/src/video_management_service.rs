//! The high-level video management interface.

use vstd::prelude::*;

use crate::container_meta::ContainerMeta;

verus! {

/// Operations a video management backend offers; implementations are
/// supplied by the embedding application.
pub trait IVideoMnagementService {
    /// Uploads a multimedia container and returns its metadata.
    fn upload_multi_media_container(&self) -> ContainerMeta;

    /// Downloads the container with the given row identifier.
    fn download_multi_media_container(&self, id: i32) -> ContainerMeta;

    /// Retrieves the containers matching the given descriptive fields.
    fn retrieve_multi_media_container_metainformations(
        &self,
        date_time_created: i64,
        date_time_updated: i64,
        title: String,
        description: String,
        tags: Vec<String>,
    ) -> Vec<ContainerMeta>;

    /// Retrieves the container with the given row identifier.
    fn retrieve_multi_media_container_metainformation_by_id(&self, id: i32) -> ContainerMeta;

    /// Replaces the container with the given row identifier.
    fn update_multi_media_container_metainformation_by_id(
        &self,
        id: i32,
        container_meta: ContainerMeta,
    ) -> ContainerMeta;

    /// Deletes the container with the given row identifier.
    fn delete_multi_media_container_metainformation_by_id(&self, id: i32) -> ContainerMeta;
}

} // verus!
