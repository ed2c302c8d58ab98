//! The ingestion, retrieval and deletion orchestrators: they sequence blob
//! upload, parsing, identifier assignment and metadata persistence, and they
//! are the only place where the blob store and the metadata store are kept
//! mutually consistent. Every step's effect on both stores is pinned by a
//! spec-level transition function.

use vstd::prelude::*;
use vstd::string::StringExecFns;

use crate::blob_store::BlobStore;
use crate::container_meta::{clone_tags, ContainerMeta, ContainerMetaView};
use crate::delete_parameters::DeleteBlobParameters;
use crate::download_parameters::DownloadBlobParameters;
use crate::error::ServiceError;
use crate::meta_store::{MetadataStore, MetaState};
use crate::model;
use crate::mp4_parser::{ContainerOutcome, Mp4Parser, spec_parse_container};
use crate::track::{AudioTrackView, SubtitleTrackView, VideoTrackView};
use crate::upload_parameters::{UploadFileParameters, UploadMetaParameters};
use crate::uuid_text::uuid_seq;
use crate::ModelType;
use crate::ModelTypeView;

verus! {

/// Mathematical image of everything the service owns: the blob store's
/// key-to-payload map and the metadata store's four row maps.
pub struct ServiceState {
    pub blob: Map<Seq<char>, Seq<u8>>,
    pub meta: MetaState,
}

/// The multimedia management service: blob storage, parser and metadata
/// store behind one ingestion/retrieval/deletion interface.
pub struct MutimediaManagementService {
    pub blob_storage_connector: BlobStore,
    pub mp4_parser: Mp4Parser,
    pub sql_data_access: MetadataStore,
}

impl View for MutimediaManagementService {
    type V = ServiceState;

    open spec fn view(&self) -> ServiceState {
        ServiceState { blob: self.blob_storage_connector@, meta: self.sql_data_access@ }
    }
}

/// The effect of one ingestion on the service state, given the generated
/// identifiers and the clock reading: the blob is stored first under
/// `"{container id}/{blob name}"`; a failed parse leaves it there and
/// changes no metadata; then each parsed track is persisted under its fresh
/// identifier (an identifier collision is a constraint violation that keeps
/// the rows persisted so far), and last the container row, which embeds the
/// track identifiers — the nil sentinel 0 for each absent kind — the
/// caller's title, description and tags (order and absent slots kept), and
/// equal creation/update timestamps.
pub open spec fn spec_ingest(
    s: ServiceState,
    bytes: Seq<u8>,
    blob_name: Seq<char>,
    title: Seq<char>,
    description: Seq<char>,
    tags: Seq<Option<Seq<char>>>,
    container_meta_id: u128,
    video_track_id: u128,
    audio_track_id: u128,
    subtitle_track_id: u128,
    now: i64,
) -> (ServiceState, Result<ContainerMetaView, ServiceError>) {
    let key = uuid_seq(container_meta_id) + "/"@ + blob_name;
    let blob1 = s.blob.insert(key, bytes);
    match spec_parse_container(bytes) {
        ContainerOutcome::Bad(at) => (
            ServiceState { blob: blob1, meta: s.meta },
            Err(ServiceError::ParseError(at as u64)),
        ),
        ContainerOutcome::Parsed { meta: draft, video, audio, subtitle } => {
            let m0 = s.meta;
            if video is Some && m0.videos.contains_key(video_track_id) {
                (ServiceState { blob: blob1, meta: m0 }, Err(ServiceError::PersistenceError))
            } else {
                let m1 = if video is Some {
                    MetaState {
                        videos: m0.videos.insert(video_track_id, (VideoTrackView {
                            id: video_track_id,
                            container_meta_id: container_meta_id,
                            ..video.unwrap()
                        })),
                        ..m0
                    }
                } else {
                    m0
                };
                if audio is Some && m1.audios.contains_key(audio_track_id) {
                    (ServiceState { blob: blob1, meta: m1 }, Err(ServiceError::PersistenceError))
                } else {
                    let m2 = if audio is Some {
                        MetaState {
                            audios: m1.audios.insert(audio_track_id, (AudioTrackView {
                                id: audio_track_id,
                                container_meta_id: container_meta_id,
                                ..audio.unwrap()
                            })),
                            ..m1
                        }
                    } else {
                        m1
                    };
                    if subtitle is Some && m2.subtitles.contains_key(subtitle_track_id) {
                        (
                            ServiceState { blob: blob1, meta: m2 },
                            Err(ServiceError::PersistenceError),
                        )
                    } else {
                        let m3 = if subtitle is Some {
                            MetaState {
                                subtitles: m2.subtitles.insert(subtitle_track_id, (SubtitleTrackView {
                                    id: subtitle_track_id,
                                    container_meta_id: container_meta_id,
                                    ..subtitle.unwrap()
                                })),
                                ..m2
                            }
                        } else {
                            m2
                        };
                        let mv = ContainerMetaView {
                            id: container_meta_id,
                            date_time_created: now,
                            date_time_updated: now,
                            title: title,
                            description: description,
                            tags: tags,
                            video_track_id: if video is Some { video_track_id } else { 0 },
                            audio_track_id: if audio is Some { audio_track_id } else { 0 },
                            subtitle_track_id: if subtitle is Some { subtitle_track_id } else { 0 },
                            file_size_in_kb: draft.file_size_in_kb,
                            duration: draft.duration,
                        };
                        if m3.containers.contains_key(container_meta_id) {
                            (
                                ServiceState { blob: blob1, meta: m3 },
                                Err(ServiceError::PersistenceError),
                            )
                        } else {
                            (
                                ServiceState {
                                    blob: blob1,
                                    meta: MetaState {
                                        containers: m3.containers.insert(container_meta_id, mv),
                                        ..m3
                                    },
                                },
                                Ok(mv),
                            )
                        }
                    }
                }
            }
        },
    }
}

/// The effect of one cascading deletion on the service state: the blob
/// under `"{container id}/{file name}"` and the bare-identifier folder
/// marker are removed first, whether or not they exist; then the container
/// row is looked up — without it the deletion cannot know which track rows
/// to remove and fails with `NotFoundError`, the blobs staying deleted —
/// and each track-id field that is not the nil sentinel has its row
/// removed, the container row last.
pub open spec fn spec_delete(s: ServiceState, id_text: Seq<char>, file_name: Seq<char>) -> (
    ServiceState,
    Result<(), ServiceError>,
)
    recommends
        crate::uuid_text::spec_parse_uuid(id_text) is Some,
{
    let key = id_text + "/"@ + file_name;
    let blob1 = s.blob.remove(key).remove(id_text);
    let id = crate::uuid_text::spec_parse_uuid(id_text).unwrap();
    if !s.meta.containers.contains_key(id) {
        (ServiceState { blob: blob1, meta: s.meta }, Err(ServiceError::NotFoundError))
    } else {
        let c = s.meta.containers[id];
        let m1 = if c.video_track_id != 0 {
            MetaState { videos: s.meta.videos.remove(c.video_track_id), ..s.meta }
        } else {
            s.meta
        };
        let m2 = if c.audio_track_id != 0 {
            MetaState { audios: m1.audios.remove(c.audio_track_id), ..m1 }
        } else {
            m1
        };
        let m3 = if c.subtitle_track_id != 0 {
            MetaState { subtitles: m2.subtitles.remove(c.subtitle_track_id), ..m2 }
        } else {
            m2
        };
        let m4 = MetaState { containers: m3.containers.remove(id), ..m3 };
        (ServiceState { blob: blob1, meta: m4 }, Ok(()))
    }
}

/// The row a retrieval of the given kind and identifier yields, or
/// `NotFoundError` when that kind's map has no such row.
pub open spec fn spec_retrieve(m: MetaState, kind: model::ModelType, id: u128) -> Result<
    ModelTypeView,
    ServiceError,
> {
    match kind {
        model::ModelType::ContainerMeta => if m.containers.contains_key(id) {
            Ok(ModelTypeView::ContainerMeta(m.containers[id]))
        } else {
            Err(ServiceError::NotFoundError)
        },
        model::ModelType::VideoTrack => if m.videos.contains_key(id) {
            Ok(ModelTypeView::VideoTrack(m.videos[id]))
        } else {
            Err(ServiceError::NotFoundError)
        },
        model::ModelType::AudioTrack => if m.audios.contains_key(id) {
            Ok(ModelTypeView::AudioTrack(m.audios[id]))
        } else {
            Err(ServiceError::NotFoundError)
        },
        model::ModelType::SubtitleTrack => if m.subtitles.contains_key(id) {
            Ok(ModelTypeView::SubtitleTrack(m.subtitles[id]))
        } else {
            Err(ServiceError::NotFoundError)
        },
    }
}

impl MutimediaManagementService {
    /// The service's structural invariant.
    pub open spec fn wf(self) -> bool {
        self.blob_storage_connector.wf()
    }

    /// A service over empty stores.
    pub fn new() -> (r: Self)
        ensures
            r.wf(),
            r@.blob == Map::<Seq<char>, Seq<u8>>::empty(),
            r@.meta.containers == Map::<u128, ContainerMetaView>::empty(),
            r@.meta.videos == Map::<u128, VideoTrackView>::empty(),
            r@.meta.audios == Map::<u128, AudioTrackView>::empty(),
            r@.meta.subtitles == Map::<u128, SubtitleTrackView>::empty(),
    {
        MutimediaManagementService {
            blob_storage_connector: BlobStore::new(),
            mp4_parser: Mp4Parser::new(),
            sql_data_access: MetadataStore::new(),
        }
    }

    /// Ingests a container whose bytes are in memory, under identifiers and
    /// a timestamp the caller supplies; [`spec_ingest`] pins the effect on
    /// both stores and the returned row.
    pub fn ingest_with_identifiers(
        &mut self,
        file_bytes: &Vec<u8>,
        upload_file_parameters: &UploadFileParameters,
        upload_meta_parameters: &UploadMetaParameters,
        container_meta_id: u128,
        video_track_id: u128,
        audio_track_id: u128,
        subtitle_track_id: u128,
        now: i64,
    ) -> (r: Result<ContainerMeta, ServiceError>)
        requires
            old(self).wf(),
        ensures
            final(self).wf(),
            ({
                let (s2, rr) = spec_ingest(
                    old(self)@,
                    file_bytes@,
                    upload_file_parameters.blob_name@,
                    upload_meta_parameters.title@,
                    upload_meta_parameters.description@,
                    upload_meta_parameters.tags.deep_view(),
                    container_meta_id,
                    video_track_id,
                    audio_track_id,
                    subtitle_track_id,
                    now,
                );
                &&& final(self)@ == s2
                &&& match (r, rr) {
                    (Ok(m), Ok(mv)) => m@ == mv,
                    (Err(e), Err(ee)) => e == ee,
                    _ => false,
                }
            }),
    {
        let mut key = crate::uuid_text::uuid_string(container_meta_id);
        key.append("/");
        key.append(upload_file_parameters.blob_name.as_str());
        self.blob_storage_connector.upload_bytes(key.as_str(), file_bytes);

        let (mut container_meta, video_track, audio_track, subtitle_track) =
            match self.mp4_parser.parse_from_bytes(file_bytes) {
            Ok(parsed) => parsed,
            Err(e) => {
                return Err(e);
            },
        };

        if let Some(mut track) = video_track {
            track.id = video_track_id;
            track.container_meta_id = container_meta_id;
            match self.sql_data_access.insert_video_track(&track) {
                Ok(_) => {},
                Err(e) => {
                    return Err(e);
                },
            }
            container_meta.video_track_id = video_track_id;
        }

        if let Some(mut track) = audio_track {
            track.id = audio_track_id;
            track.container_meta_id = container_meta_id;
            match self.sql_data_access.insert_audio_track(&track) {
                Ok(_) => {},
                Err(e) => {
                    return Err(e);
                },
            }
            container_meta.audio_track_id = audio_track_id;
        }

        if let Some(mut track) = subtitle_track {
            track.id = subtitle_track_id;
            track.container_meta_id = container_meta_id;
            match self.sql_data_access.insert_subtitlte_track(&track) {
                Ok(_) => {},
                Err(e) => {
                    return Err(e);
                },
            }
            container_meta.subtitle_track_id = subtitle_track_id;
        }

        container_meta.id = container_meta_id;
        container_meta.date_time_created = now;
        container_meta.date_time_updated = now;
        container_meta.title = upload_meta_parameters.title.clone();
        container_meta.description = upload_meta_parameters.description.clone();
        container_meta.tags = clone_tags(&upload_meta_parameters.tags);

        match self.sql_data_access.insert_container_meta(&container_meta) {
            Ok(_) => {},
            Err(e) => {
                return Err(e);
            },
        }
        Ok(container_meta)
    }

    /// Ingests a container whose bytes are in memory: generates the
    /// container and track identifiers (never nil) and the timestamps, then
    /// runs [`Self::ingest_with_identifiers`].
    pub fn upload_blob_from_bytes_and_create_metadata(
        &mut self,
        file_bytes: &Vec<u8>,
        upload_file_parameters: &UploadFileParameters,
        upload_meta_parameters: &UploadMetaParameters,
    ) -> (r: Result<ContainerMeta, ServiceError>)
        requires
            old(self).wf(),
        ensures
            final(self).wf(),
            exists|ids: (u128, u128, u128, u128), now: i64|
                {
                    &&& ids.0 != 0 && ids.1 != 0 && ids.2 != 0 && ids.3 != 0
                    &&& ({
                        let (s2, rr) = #[trigger] spec_ingest(
                            old(self)@,
                            file_bytes@,
                            upload_file_parameters.blob_name@,
                            upload_meta_parameters.title@,
                            upload_meta_parameters.description@,
                            upload_meta_parameters.tags.deep_view(),
                            ids.0,
                            ids.1,
                            ids.2,
                            ids.3,
                            now,
                        );
                        &&& final(self)@ == s2
                        &&& match (r, rr) {
                            (Ok(m), Ok(mv)) => m@ == mv,
                            (Err(e), Err(ee)) => e == ee,
                            _ => false,
                        }
                    })
                },
    {
        let container_meta_id = crate::runtime::fresh_id();
        let video_track_id = crate::runtime::fresh_id();
        let audio_track_id = crate::runtime::fresh_id();
        let subtitle_track_id = crate::runtime::fresh_id();
        let now = crate::runtime::now_seconds();
        let r = self.ingest_with_identifiers(
            file_bytes,
            upload_file_parameters,
            upload_meta_parameters,
            container_meta_id,
            video_track_id,
            audio_track_id,
            subtitle_track_id,
            now,
        );
        proof {
            let ids = (container_meta_id, video_track_id, audio_track_id, subtitle_track_id);
            assert(ids.0 != 0 && ids.1 != 0 && ids.2 != 0 && ids.3 != 0 && ({
                let (s2, rr) = spec_ingest(
                    old(self)@,
                    file_bytes@,
                    upload_file_parameters.blob_name@,
                    upload_meta_parameters.title@,
                    upload_meta_parameters.description@,
                    upload_meta_parameters.tags.deep_view(),
                    ids.0,
                    ids.1,
                    ids.2,
                    ids.3,
                    now,
                );
                &&& final(self)@ == s2
                &&& match (r, rr) {
                    (Ok(m), Ok(mv)) => m@ == mv,
                    (Err(e), Err(ee)) => e == ee,
                    _ => false,
                }
            }));
        }
        r
    }

    /// Deletes the blob object and the folder marker, then cascades through
    /// the metadata rows: the container row names which track rows to
    /// remove, so a missing container row is fatal. The textual container
    /// identifier must be in the hyphenated UUID layout.
    pub fn delete_blob_and_created_metadata_by_id(
        &mut self,
        delete_blob_parameters: &DeleteBlobParameters,
    ) -> (r: Result<(), ServiceError>)
        requires
            old(self).wf(),
            crate::uuid_text::spec_parse_uuid(delete_blob_parameters.container_meta_id@) is Some,
        ensures
            final(self).wf(),
            ({
                let (s2, rr) = spec_delete(
                    old(self)@,
                    delete_blob_parameters.container_meta_id@,
                    delete_blob_parameters.file_name@,
                );
                final(self)@ == s2 && r == rr
            }),
    {
        let blob_name = delete_blob_parameters.get_blob_name();
        self.blob_storage_connector.delete_blob(blob_name.as_str());
        self.blob_storage_connector.delete_blob(delete_blob_parameters.container_meta_id.as_str());
        let uuid_from_str = match crate::uuid_text::parse_uuid(
            delete_blob_parameters.container_meta_id.as_str(),
        ) {
            Some(id) => id,
            None => {
                proof {
                    assert(false);
                }
                return Err(ServiceError::NotFoundError);
            },
        };

        let container_meta = match self.sql_data_access.get_container_meta_by_id(uuid_from_str) {
            Ok(row) => row,
            Err(e) => {
                return Err(e);
            },
        };

        if container_meta.video_track_id != 0 {
            let _ = self.sql_data_access.delete_video_track_by_id(container_meta.video_track_id);
        }
        if container_meta.audio_track_id != 0 {
            let _ = self.sql_data_access.delete_audio_track_by_id(container_meta.audio_track_id);
        }
        if container_meta.subtitle_track_id != 0 {
            let _ = self.sql_data_access.delete_subtitle_track_by_id(
                container_meta.subtitle_track_id,
            );
        }

        let _ = self.sql_data_access.delete_container_meta_by_id(uuid_from_str);
        Ok(())
    }

    /// Downloads the payload stored under
    /// `"{container_meta_id}/{file_name}"`.
    pub fn retrieve_bytes_from_blob_by_name(
        &self,
        download_blob_parameters: &DownloadBlobParameters,
    ) -> (r: Result<Vec<u8>, ServiceError>)
        requires
            self.wf(),
        ensures
            ({
                let key = download_blob_parameters.container_meta_id@ + "/"@
                    + download_blob_parameters.file_name@;
                match r {
                    Ok(bytes) => self@.blob.contains_key(key) && bytes@ == self@.blob[key],
                    Err(e) => e == ServiceError::BlobStoreError && !self@.blob.contains_key(key),
                }
            }),
    {
        let blob_name = download_blob_parameters.get_blob_name();
        match self.blob_storage_connector.get_object(blob_name.as_str()) {
            Some(bytes) => Ok(bytes),
            None => Err(ServiceError::BlobStoreError),
        }
    }

    /// Fetches the row of the selected kind by identifier, as a tagged
    /// value; a kind whose map has no such row is `NotFoundError`.
    pub fn retrieve_metadata_by_id(
        &self,
        model_type: &model::ModelType,
        id: u128,
    ) -> (r: Result<Option<ModelType>, ServiceError>)
        ensures
            match r {
                Ok(Some(tagged)) => spec_retrieve(self@.meta, *model_type, id)
                    == Ok::<ModelTypeView, ServiceError>(tagged@),
                Ok(None) => false,
                Err(e) => spec_retrieve(self@.meta, *model_type, id)
                    == Err::<ModelTypeView, ServiceError>(e),
            },
    {
        match model_type {
            model::ModelType::ContainerMeta => {
                match self.sql_data_access.get_container_meta_by_id(id) {
                    Ok(row) => Ok(Some(ModelType::ContainerMeta(row))),
                    Err(e) => Err(e),
                }
            },
            model::ModelType::VideoTrack => {
                match self.sql_data_access.get_video_track_by_id(id) {
                    Ok(row) => Ok(Some(ModelType::VideoTrack(row))),
                    Err(e) => Err(e),
                }
            },
            model::ModelType::AudioTrack => {
                match self.sql_data_access.get_audio_track_by_id(id) {
                    Ok(row) => Ok(Some(ModelType::AudioTrack(row))),
                    Err(e) => Err(e),
                }
            },
            model::ModelType::SubtitleTrack => {
                match self.sql_data_access.get_subtitle_track_by_id(id) {
                    Ok(row) => Ok(Some(ModelType::SubtitleTrack(row))),
                    Err(e) => Err(e),
                }
            },
        }
    }
}

} // verus!
