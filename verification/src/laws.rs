//! The store-consistency invariant and the laws the orchestrators obey,
//! each proved over the spec-level transitions of
//! [`crate::mutimedia_management_service`].

use vstd::prelude::*;

use crate::container_meta::ContainerMetaView;
use crate::error::ServiceError;
use crate::meta_store::MetaState;
use crate::model;
use crate::mp4_parser::{ContainerOutcome, spec_parse_container};
use crate::mutimedia_management_service::{
    spec_delete, spec_ingest, spec_retrieve, ServiceState,
};
use crate::track::{AudioTrackView, SubtitleTrackView, VideoTrackView};
use crate::uuid_text::spec_parse_uuid;
use crate::ModelTypeView;

verus! {

/// The links of one container row are sound: a non-nil track-id field names
/// an existing track row of that kind whose back-reference points at this
/// container.
pub open spec fn container_links_ok(m: MetaState, cid: u128) -> bool {
    let c = m.containers[cid];
    &&& c.id == cid
    &&& (c.video_track_id != 0 ==> m.videos.contains_key(c.video_track_id)
        && m.videos[c.video_track_id].container_meta_id == cid)
    &&& (c.audio_track_id != 0 ==> m.audios.contains_key(c.audio_track_id)
        && m.audios[c.audio_track_id].container_meta_id == cid)
    &&& (c.subtitle_track_id != 0 ==> m.subtitles.contains_key(c.subtitle_track_id)
        && m.subtitles[c.subtitle_track_id].container_meta_id == cid)
}

/// Mutual consistency of the metadata store: no row carries the nil
/// identifier, every container's non-nil track ids resolve to rows that
/// point back at it, and every track row is owned by exactly the container
/// its back-reference names.
pub open spec fn consistent(m: MetaState) -> bool {
    &&& !m.videos.contains_key(0)
    &&& !m.audios.contains_key(0)
    &&& !m.subtitles.contains_key(0)
    &&& forall|cid: u128| #[trigger] m.containers.contains_key(cid) ==> container_links_ok(m, cid)
    &&& forall|tid: u128| #[trigger] m.videos.contains_key(tid) ==> m.videos[tid].id == tid
        && m.containers.contains_key(m.videos[tid].container_meta_id)
        && m.containers[m.videos[tid].container_meta_id].video_track_id == tid
    &&& forall|tid: u128| #[trigger] m.audios.contains_key(tid) ==> m.audios[tid].id == tid
        && m.containers.contains_key(m.audios[tid].container_meta_id)
        && m.containers[m.audios[tid].container_meta_id].audio_track_id == tid
    &&& forall|tid: u128| #[trigger] m.subtitles.contains_key(tid) ==> m.subtitles[tid].id == tid
        && m.containers.contains_key(m.subtitles[tid].container_meta_id)
        && m.containers[m.subtitles[tid].container_meta_id].subtitle_track_id == tid
}

/// A store without rows — the state a fresh service starts from — is
/// consistent, so consistency holds inductively along any run of
/// ingestions and deletions.
pub proof fn lemma_empty_store_consistent(m: MetaState)
    requires
        m.containers == Map::<u128, ContainerMetaView>::empty(),
        m.videos == Map::<u128, VideoTrackView>::empty(),
        m.audios == Map::<u128, AudioTrackView>::empty(),
        m.subtitles == Map::<u128, SubtitleTrackView>::empty(),
    ensures
        consistent(m),
{
}

/// Sentinel law: in a consistent store, a container's track-id field is the
/// nil sentinel exactly when no track row of that kind belongs to the
/// container.
pub proof fn lemma_sentinel_invariant(m: MetaState, cid: u128)
    requires
        consistent(m),
        m.containers.contains_key(cid),
    ensures
        m.containers[cid].video_track_id == 0 <==> !(exists|tid: u128|
            #[trigger] m.videos.contains_key(tid) && m.videos[tid].container_meta_id == cid),
        m.containers[cid].audio_track_id == 0 <==> !(exists|tid: u128|
            #[trigger] m.audios.contains_key(tid) && m.audios[tid].container_meta_id == cid),
        m.containers[cid].subtitle_track_id == 0 <==> !(exists|tid: u128|
            #[trigger] m.subtitles.contains_key(tid) && m.subtitles[tid].container_meta_id == cid),
{
    let c = m.containers[cid];
    if c.video_track_id != 0 {
        assert(m.videos.contains_key(c.video_track_id)
            && m.videos[c.video_track_id].container_meta_id == cid);
    } else {
        assert forall|tid: u128| #[trigger] m.videos.contains_key(tid) implies
            m.videos[tid].container_meta_id != cid by {
            if m.videos[tid].container_meta_id == cid {
                assert(m.containers[cid].video_track_id == tid);
            }
        }
    }
    if c.audio_track_id != 0 {
        assert(m.audios.contains_key(c.audio_track_id)
            && m.audios[c.audio_track_id].container_meta_id == cid);
    } else {
        assert forall|tid: u128| #[trigger] m.audios.contains_key(tid) implies
            m.audios[tid].container_meta_id != cid by {
            if m.audios[tid].container_meta_id == cid {
                assert(m.containers[cid].audio_track_id == tid);
            }
        }
    }
    if c.subtitle_track_id != 0 {
        assert(m.subtitles.contains_key(c.subtitle_track_id)
            && m.subtitles[c.subtitle_track_id].container_meta_id == cid);
    } else {
        assert forall|tid: u128| #[trigger] m.subtitles.contains_key(tid) implies
            m.subtitles[tid].container_meta_id != cid by {
            if m.subtitles[tid].container_meta_id == cid {
                assert(m.containers[cid].subtitle_track_id == tid);
            }
        }
    }
}

/// A successful ingestion with never-nil identifiers keeps the metadata
/// store consistent.
pub proof fn lemma_ingest_preserves_consistency(
    s: ServiceState,
    bytes: Seq<u8>,
    blob_name: Seq<char>,
    title: Seq<char>,
    description: Seq<char>,
    tags: Seq<Option<Seq<char>>>,
    container_meta_id: u128,
    video_track_id: u128,
    audio_track_id: u128,
    subtitle_track_id: u128,
    now: i64,
)
    requires
        consistent(s.meta),
        container_meta_id != 0,
        video_track_id != 0,
        audio_track_id != 0,
        subtitle_track_id != 0,
    ensures
        ({
            let (s2, r) = spec_ingest(
                s, bytes, blob_name, title, description, tags, container_meta_id,
                video_track_id, audio_track_id, subtitle_track_id, now,
            );
            r is Ok ==> consistent(s2.meta)
        }),
{
    let (s2, r) = spec_ingest(
        s, bytes, blob_name, title, description, tags, container_meta_id, video_track_id,
        audio_track_id, subtitle_track_id, now,
    );
    if r is Ok {
        let m = s.meta;
        let m2 = s2.meta;
        let mv = m2.containers[container_meta_id];
        assert forall|cid: u128| #[trigger] m2.containers.contains_key(cid) implies
            container_links_ok(m2, cid) by {
            if cid == container_meta_id {
                assert(container_links_ok(m2, cid));
            } else {
                assert(m.containers.contains_key(cid));
                assert(container_links_ok(m, cid));
                let c = m.containers[cid];
                if c.video_track_id != 0 {
                    assert(m.videos.contains_key(c.video_track_id));
                }
                if c.audio_track_id != 0 {
                    assert(m.audios.contains_key(c.audio_track_id));
                }
                if c.subtitle_track_id != 0 {
                    assert(m.subtitles.contains_key(c.subtitle_track_id));
                }
                assert(container_links_ok(m2, cid));
            }
        }
        assert forall|tid: u128| #[trigger] m2.videos.contains_key(tid) implies
            m2.videos[tid].id == tid
            && m2.containers.contains_key(m2.videos[tid].container_meta_id)
            && m2.containers[m2.videos[tid].container_meta_id].video_track_id == tid by {
            if m.videos.contains_key(tid) {
                assert(m.containers.contains_key(m.videos[tid].container_meta_id));
            }
        }
        assert forall|tid: u128| #[trigger] m2.audios.contains_key(tid) implies
            m2.audios[tid].id == tid
            && m2.containers.contains_key(m2.audios[tid].container_meta_id)
            && m2.containers[m2.audios[tid].container_meta_id].audio_track_id == tid by {
            if m.audios.contains_key(tid) {
                assert(m.containers.contains_key(m.audios[tid].container_meta_id));
            }
        }
        assert forall|tid: u128| #[trigger] m2.subtitles.contains_key(tid) implies
            m2.subtitles[tid].id == tid
            && m2.containers.contains_key(m2.subtitles[tid].container_meta_id)
            && m2.containers[m2.subtitles[tid].container_meta_id].subtitle_track_id == tid by {
            if m.subtitles.contains_key(tid) {
                assert(m.containers.contains_key(m.subtitles[tid].container_meta_id));
            }
        }
    }
}

/// Cascading-delete law: after a successful deletion, the container row,
/// every track row it referenced and the blob object are all gone — each
/// retrieval answers `NotFoundError` — and the store stays consistent.
pub proof fn lemma_cascading_delete(s: ServiceState, id_text: Seq<char>, file_name: Seq<char>)
    requires
        consistent(s.meta),
        spec_parse_uuid(id_text) is Some,
    ensures
        ({
            let (s2, r) = spec_delete(s, id_text, file_name);
            let id = spec_parse_uuid(id_text).unwrap();
            r is Ok ==> {
                let c = s.meta.containers[id];
                &&& spec_retrieve(s2.meta, model::ModelType::ContainerMeta, id)
                    == Err::<ModelTypeView, ServiceError>(ServiceError::NotFoundError)
                &&& c.video_track_id != 0 ==> spec_retrieve(
                    s2.meta, model::ModelType::VideoTrack, c.video_track_id,
                ) == Err::<ModelTypeView, ServiceError>(ServiceError::NotFoundError)
                &&& c.audio_track_id != 0 ==> spec_retrieve(
                    s2.meta, model::ModelType::AudioTrack, c.audio_track_id,
                ) == Err::<ModelTypeView, ServiceError>(ServiceError::NotFoundError)
                &&& c.subtitle_track_id != 0 ==> spec_retrieve(
                    s2.meta, model::ModelType::SubtitleTrack, c.subtitle_track_id,
                ) == Err::<ModelTypeView, ServiceError>(ServiceError::NotFoundError)
                &&& !s2.blob.contains_key(id_text + "/"@ + file_name)
                &&& consistent(s2.meta)
            }
        }),
{
    let (s2, r) = spec_delete(s, id_text, file_name);
    let id = spec_parse_uuid(id_text).unwrap();
    if r is Ok {
        let m = s.meta;
        let m2 = s2.meta;
        let c = m.containers[id];
        assert forall|cid: u128| #[trigger] m2.containers.contains_key(cid) implies
            container_links_ok(m2, cid) by {
            assert(container_links_ok(m, cid));
            let c2 = m.containers[cid];
            if c2.video_track_id != 0 {
                assert(m.videos[c2.video_track_id].container_meta_id == cid);
                if c.video_track_id != 0 && c2.video_track_id == c.video_track_id {
                    assert(m.videos[c.video_track_id].container_meta_id == id);
                }
            }
            if c2.audio_track_id != 0 {
                assert(m.audios[c2.audio_track_id].container_meta_id == cid);
                if c.audio_track_id != 0 && c2.audio_track_id == c.audio_track_id {
                    assert(m.audios[c.audio_track_id].container_meta_id == id);
                }
            }
            if c2.subtitle_track_id != 0 {
                assert(m.subtitles[c2.subtitle_track_id].container_meta_id == cid);
                if c.subtitle_track_id != 0 && c2.subtitle_track_id == c.subtitle_track_id {
                    assert(m.subtitles[c.subtitle_track_id].container_meta_id == id);
                }
            }
        }
        assert forall|tid: u128| #[trigger] m2.videos.contains_key(tid) implies
            m2.videos[tid].id == tid
            && m2.containers.contains_key(m2.videos[tid].container_meta_id)
            && m2.containers[m2.videos[tid].container_meta_id].video_track_id == tid by {
            assert(m.videos.contains_key(tid));
            if m.videos[tid].container_meta_id == id {
                assert(m.containers[id].video_track_id == tid);
            }
        }
        assert forall|tid: u128| #[trigger] m2.audios.contains_key(tid) implies
            m2.audios[tid].id == tid
            && m2.containers.contains_key(m2.audios[tid].container_meta_id)
            && m2.containers[m2.audios[tid].container_meta_id].audio_track_id == tid by {
            assert(m.audios.contains_key(tid));
            if m.audios[tid].container_meta_id == id {
                assert(m.containers[id].audio_track_id == tid);
            }
        }
        assert forall|tid: u128| #[trigger] m2.subtitles.contains_key(tid) implies
            m2.subtitles[tid].id == tid
            && m2.containers.contains_key(m2.subtitles[tid].container_meta_id)
            && m2.containers[m2.subtitles[tid].container_meta_id].subtitle_track_id == tid by {
            assert(m.subtitles.contains_key(tid));
            if m.subtitles[tid].container_meta_id == id {
                assert(m.containers[id].subtitle_track_id == tid);
            }
        }
    }
}

/// Idempotence-boundary law: a deletion succeeds exactly when the container
/// row exists, and deleting the same identifier again answers
/// `NotFoundError` rather than succeeding silently.
pub proof fn lemma_delete_idempotence(s: ServiceState, id_text: Seq<char>, file_name: Seq<char>)
    requires
        spec_parse_uuid(id_text) is Some,
    ensures
        ({
            let (s2, r) = spec_delete(s, id_text, file_name);
            &&& (r is Ok <==> s.meta.containers.contains_key(spec_parse_uuid(id_text).unwrap()))
            &&& (r is Ok ==> spec_delete(s2, id_text, file_name).1
                == Err::<(), ServiceError>(ServiceError::NotFoundError))
        }),
{
}

/// Round-trip law: ingesting a container that parses to one video track,
/// one audio track and no subtitle track and then retrieving each entity by
/// its assigned identifier returns the parser's attributes field for field,
/// under the assigned identifiers; the subtitle field stays the nil
/// sentinel.
pub proof fn lemma_ingest_round_trip(
    s: ServiceState,
    bytes: Seq<u8>,
    blob_name: Seq<char>,
    title: Seq<char>,
    description: Seq<char>,
    tags: Seq<Option<Seq<char>>>,
    container_meta_id: u128,
    video_track_id: u128,
    audio_track_id: u128,
    subtitle_track_id: u128,
    now: i64,
    draft: ContainerMetaView,
    video: VideoTrackView,
    audio: AudioTrackView,
)
    requires
        spec_parse_container(bytes) == (ContainerOutcome::Parsed {
            meta: draft,
            video: Some(video),
            audio: Some(audio),
            subtitle: None::<SubtitleTrackView>,
        }),
    ensures
        ({
            let (s2, r) = spec_ingest(
                s, bytes, blob_name, title, description, tags, container_meta_id,
                video_track_id, audio_track_id, subtitle_track_id, now,
            );
            r matches Ok(mv) ==> {
                &&& mv.video_track_id == video_track_id
                &&& mv.audio_track_id == audio_track_id
                &&& mv.subtitle_track_id == 0
                &&& spec_retrieve(s2.meta, model::ModelType::VideoTrack, video_track_id)
                    == Ok::<ModelTypeView, ServiceError>(ModelTypeView::VideoTrack(
                    (VideoTrackView {
                        id: video_track_id,
                        container_meta_id: container_meta_id,
                        ..video
                    }),
                ))
                &&& spec_retrieve(s2.meta, model::ModelType::AudioTrack, audio_track_id)
                    == Ok::<ModelTypeView, ServiceError>(ModelTypeView::AudioTrack(
                    (AudioTrackView {
                        id: audio_track_id,
                        container_meta_id: container_meta_id,
                        ..audio
                    }),
                ))
                &&& spec_retrieve(s2.meta, model::ModelType::ContainerMeta, container_meta_id)
                    == Ok::<ModelTypeView, ServiceError>(ModelTypeView::ContainerMeta(mv))
            }
        }),
{
}

/// Tag-order law: a successful ingestion stores, and a retrieval of the
/// container returns, exactly the caller's tag sequence — same order, with
/// any absent slots at their original positions — together with the
/// caller's title and description and equal creation/update timestamps.
pub proof fn lemma_tag_order_preserved(
    s: ServiceState,
    bytes: Seq<u8>,
    blob_name: Seq<char>,
    title: Seq<char>,
    description: Seq<char>,
    tags: Seq<Option<Seq<char>>>,
    container_meta_id: u128,
    video_track_id: u128,
    audio_track_id: u128,
    subtitle_track_id: u128,
    now: i64,
)
    ensures
        ({
            let (s2, r) = spec_ingest(
                s, bytes, blob_name, title, description, tags, container_meta_id,
                video_track_id, audio_track_id, subtitle_track_id, now,
            );
            r matches Ok(mv) ==> {
                &&& mv.tags == tags
                &&& mv.title == title
                &&& mv.description == description
                &&& mv.date_time_created == now
                &&& mv.date_time_updated == now
                &&& spec_retrieve(s2.meta, model::ModelType::ContainerMeta, container_meta_id)
                    == Ok::<ModelTypeView, ServiceError>(ModelTypeView::ContainerMeta(mv))
            }
        }),
{
}

} // verus!
