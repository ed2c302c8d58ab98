//! Multimedia container management: a verified MP4/MOV-style box-tree parser,
//! an ingestion/deletion orchestrator, and the metadata/blob store model that
//! the orchestrator keeps mutually consistent.

use vstd::prelude::*;

pub mod blob_storage_connector;
pub mod blob_store;
pub mod container_meta;
pub mod delete_parameters;
pub mod download_parameters;
pub mod enums;
pub mod error;
pub mod file_meta;
pub mod laws;
pub mod meta_store;
pub mod model;
pub mod mp4_parser;
pub mod mutimedia_management_service;
pub mod runtime;
pub mod track;
pub mod upload_parameters;
pub mod uuid_text;
pub mod video_management_service;

verus! {

/// Tagged result of a polymorphic retrieval: exactly one of the four entity
/// shapes.
#[derive(Debug)]
pub enum ModelType {
    ContainerMeta(container_meta::ContainerMeta),
    VideoTrack(track::VideoTrack),
    AudioTrack(track::AudioTrack),
    SubtitleTrack(track::SubtitleTrack),
}

/// Mathematical image of a tagged retrieval result.
pub enum ModelTypeView {
    ContainerMeta(container_meta::ContainerMetaView),
    VideoTrack(track::VideoTrackView),
    AudioTrack(track::AudioTrackView),
    SubtitleTrack(track::SubtitleTrackView),
}

impl View for ModelType {
    type V = ModelTypeView;

    open spec fn view(&self) -> ModelTypeView {
        match self {
            ModelType::ContainerMeta(m) => ModelTypeView::ContainerMeta(m@),
            ModelType::VideoTrack(t) => ModelTypeView::VideoTrack(t@),
            ModelType::AudioTrack(t) => ModelTypeView::AudioTrack(t@),
            ModelType::SubtitleTrack(t) => ModelTypeView::SubtitleTrack(t@),
        }
    }
}

} // verus!
