//! In-library model of the relational metadata store: typed row CRUD per
//! entity, addressed by identifier. Inserting an existing identifier is a
//! constraint violation; updates replace every column except the identifier;
//! deletes ignore absent rows, as the collaborator's delete does.

use vstd::prelude::*;
use std::collections::HashMap;

use crate::container_meta::{ContainerMeta, ContainerMetaView};
use crate::error::ServiceError;
use crate::track::{AudioTrack, AudioTrackView, SubtitleTrack, SubtitleTrackView, VideoTrack, VideoTrackView};

verus! {

broadcast use vstd::std_specs::hash::group_hash_axioms;

/// Mathematical image of the whole relational store: one map per entity
/// kind, keyed by identifier.
pub struct MetaState {
    pub containers: Map<u128, ContainerMetaView>,
    pub videos: Map<u128, VideoTrackView>,
    pub audios: Map<u128, AudioTrackView>,
    pub subtitles: Map<u128, SubtitleTrackView>,
}

/// The metadata-store gateway.
pub struct MetadataStore {
    container_rows: HashMap<u128, ContainerMeta>,
    video_rows: HashMap<u128, VideoTrack>,
    audio_rows: HashMap<u128, AudioTrack>,
    subtitle_rows: HashMap<u128, SubtitleTrack>,
}

impl View for MetadataStore {
    type V = MetaState;

    closed spec fn view(&self) -> MetaState {
        MetaState {
            containers: self.container_rows@.map_values(|r: ContainerMeta| r@),
            videos: self.video_rows@.map_values(|r: VideoTrack| r@),
            audios: self.audio_rows@.map_values(|r: AudioTrack| r@),
            subtitles: self.subtitle_rows@.map_values(|r: SubtitleTrack| r@),
        }
    }
}

/// Mapping the values of a map commutes with inserting one binding.
pub proof fn lemma_map_values_insert<K, V, W>(m: Map<K, V>, f: spec_fn(V) -> W, k: K, v: V)
    ensures
        m.insert(k, v).map_values(f) == m.map_values(f).insert(k, f(v)),
{
    assert(m.insert(k, v).map_values(f) =~= m.map_values(f).insert(k, f(v)));
}

/// Mapping the values of a map commutes with removing one binding.
pub proof fn lemma_map_values_remove<K, V, W>(m: Map<K, V>, f: spec_fn(V) -> W, k: K)
    ensures
        m.remove(k).map_values(f) == m.map_values(f).remove(k),
{
    assert(m.remove(k).map_values(f) =~= m.map_values(f).remove(k));
}

/// A full-row video update: every column is replaced except the identifier
/// and the container back-reference.
pub open spec fn video_row_updated(cur: VideoTrackView, patch: VideoTrackView) -> VideoTrackView {
    VideoTrackView {
        id: cur.id,
        container_meta_id: cur.container_meta_id,
        name: patch.name,
        media_type: patch.media_type,
        width: patch.width,
        height: patch.height,
        bit_rate: patch.bit_rate,
        frame_rate: patch.frame_rate,
    }
}

/// A full-row audio update: every column is replaced except the identifier
/// and the container back-reference.
pub open spec fn audio_row_updated(cur: AudioTrackView, patch: AudioTrackView) -> AudioTrackView {
    AudioTrackView {
        id: cur.id,
        container_meta_id: cur.container_meta_id,
        name: patch.name,
        media_type: patch.media_type,
        bit_rate: patch.bit_rate,
        channel_config: patch.channel_config,
        sample_frequenz: patch.sample_frequenz,
    }
}

/// A full-row subtitle update: every column is replaced except the
/// identifier and the container back-reference.
pub open spec fn subtitle_row_updated(cur: SubtitleTrackView, patch: SubtitleTrackView) -> SubtitleTrackView {
    SubtitleTrackView {
        id: cur.id,
        container_meta_id: cur.container_meta_id,
        name: patch.name,
        media_type: patch.media_type,
    }
}

/// A full-row container update: every column is replaced except the
/// identifier.
pub open spec fn container_row_updated(cur: ContainerMetaView, patch: ContainerMetaView) -> ContainerMetaView {
    ContainerMetaView {
        id: cur.id,
        date_time_created: patch.date_time_created,
        date_time_updated: patch.date_time_updated,
        title: patch.title,
        description: patch.description,
        tags: patch.tags,
        video_track_id: patch.video_track_id,
        audio_track_id: patch.audio_track_id,
        subtitle_track_id: patch.subtitle_track_id,
        file_size_in_kb: patch.file_size_in_kb,
        duration: patch.duration,
    }
}

impl MetadataStore {
    /// An empty store: no rows of any kind.
    pub fn new() -> (r: Self)
        ensures
            r@.containers == Map::<u128, ContainerMetaView>::empty(),
            r@.videos == Map::<u128, VideoTrackView>::empty(),
            r@.audios == Map::<u128, AudioTrackView>::empty(),
            r@.subtitles == Map::<u128, SubtitleTrackView>::empty(),
    {
        let r = MetadataStore {
            container_rows: HashMap::new(),
            video_rows: HashMap::new(),
            audio_rows: HashMap::new(),
            subtitle_rows: HashMap::new(),
        };
        proof {
            assert(r@.containers =~= Map::<u128, ContainerMetaView>::empty());
            assert(r@.videos =~= Map::<u128, VideoTrackView>::empty());
            assert(r@.audios =~= Map::<u128, AudioTrackView>::empty());
            assert(r@.subtitles =~= Map::<u128, SubtitleTrackView>::empty());
        }
        r
    }

    /// Inserts a video track row; an already-present identifier is a
    /// constraint violation and leaves the store unchanged.
    pub fn insert_video_track(&mut self, video_track: &VideoTrack) -> (r: Result<VideoTrack, ServiceError>)
        ensures
            match r {
                Ok(row) => !old(self)@.videos.contains_key(video_track.id) && row@ == video_track@
                    && final(self)@ == (MetaState {
                        videos: old(self)@.videos.insert(video_track.id, video_track@),
                        ..old(self)@
                    }),
                Err(e) => e == ServiceError::PersistenceError
                    && old(self)@.videos.contains_key(video_track.id) && *final(self) == *old(self),
            },
    {
        if self.video_rows.contains_key(&video_track.id) {
            return Err(ServiceError::PersistenceError);
        }
        let row = video_track.clone();
        proof {
            lemma_map_values_insert(self.video_rows@, |t: VideoTrack| t@, video_track.id, row);
        }
        self.video_rows.insert(video_track.id, row);
        Ok(video_track.clone())
    }

    /// Inserts an audio track row; an already-present identifier is a
    /// constraint violation and leaves the store unchanged.
    pub fn insert_audio_track(&mut self, audio_track: &AudioTrack) -> (r: Result<AudioTrack, ServiceError>)
        ensures
            match r {
                Ok(row) => !old(self)@.audios.contains_key(audio_track.id) && row@ == audio_track@
                    && final(self)@ == (MetaState {
                        audios: old(self)@.audios.insert(audio_track.id, audio_track@),
                        ..old(self)@
                    }),
                Err(e) => e == ServiceError::PersistenceError
                    && old(self)@.audios.contains_key(audio_track.id) && *final(self) == *old(self),
            },
    {
        if self.audio_rows.contains_key(&audio_track.id) {
            return Err(ServiceError::PersistenceError);
        }
        let row = audio_track.clone();
        proof {
            lemma_map_values_insert(self.audio_rows@, |t: AudioTrack| t@, audio_track.id, row);
        }
        self.audio_rows.insert(audio_track.id, row);
        Ok(audio_track.clone())
    }

    /// Inserts a subtitle track row; an already-present identifier is a
    /// constraint violation and leaves the store unchanged.
    pub fn insert_subtitlte_track(&mut self, subtitle_track: &SubtitleTrack) -> (r: Result<SubtitleTrack, ServiceError>)
        ensures
            match r {
                Ok(row) => !old(self)@.subtitles.contains_key(subtitle_track.id)
                    && row@ == subtitle_track@
                    && final(self)@ == (MetaState {
                        subtitles: old(self)@.subtitles.insert(subtitle_track.id, subtitle_track@),
                        ..old(self)@
                    }),
                Err(e) => e == ServiceError::PersistenceError
                    && old(self)@.subtitles.contains_key(subtitle_track.id) && *final(self) == *old(self),
            },
    {
        if self.subtitle_rows.contains_key(&subtitle_track.id) {
            return Err(ServiceError::PersistenceError);
        }
        let row = subtitle_track.clone();
        proof {
            lemma_map_values_insert(self.subtitle_rows@, |t: SubtitleTrack| t@, subtitle_track.id, row);
        }
        self.subtitle_rows.insert(subtitle_track.id, row);
        Ok(subtitle_track.clone())
    }

    /// Inserts a container row; an already-present identifier is a
    /// constraint violation and leaves the store unchanged.
    pub fn insert_container_meta(&mut self, in_container_meta: &ContainerMeta) -> (r: Result<ContainerMeta, ServiceError>)
        ensures
            match r {
                Ok(row) => !old(self)@.containers.contains_key(in_container_meta.id)
                    && row@ == in_container_meta@
                    && final(self)@ == (MetaState {
                        containers: old(self)@.containers.insert(in_container_meta.id, in_container_meta@),
                        ..old(self)@
                    }),
                Err(e) => e == ServiceError::PersistenceError
                    && old(self)@.containers.contains_key(in_container_meta.id) && *final(self) == *old(self),
            },
    {
        if self.container_rows.contains_key(&in_container_meta.id) {
            return Err(ServiceError::PersistenceError);
        }
        let row = in_container_meta.clone();
        proof {
            lemma_map_values_insert(self.container_rows@, |t: ContainerMeta| t@, in_container_meta.id, row);
        }
        self.container_rows.insert(in_container_meta.id, row);
        Ok(in_container_meta.clone())
    }

    /// Fetches the video track row with the given identifier.
    pub fn get_video_track_by_id(&self, track_id: u128) -> (r: Result<VideoTrack, ServiceError>)
        ensures
            match r {
                Ok(row) => self@.videos.contains_key(track_id) && row@ == self@.videos[track_id],
                Err(e) => e == ServiceError::NotFoundError && !self@.videos.contains_key(track_id),
            },
    {
        match self.video_rows.get(&track_id) {
            Some(row) => Ok(row.clone()),
            None => Err(ServiceError::NotFoundError),
        }
    }

    /// Fetches the audio track row with the given identifier.
    pub fn get_audio_track_by_id(&self, track_id: u128) -> (r: Result<AudioTrack, ServiceError>)
        ensures
            match r {
                Ok(row) => self@.audios.contains_key(track_id) && row@ == self@.audios[track_id],
                Err(e) => e == ServiceError::NotFoundError && !self@.audios.contains_key(track_id),
            },
    {
        match self.audio_rows.get(&track_id) {
            Some(row) => Ok(row.clone()),
            None => Err(ServiceError::NotFoundError),
        }
    }

    /// Fetches the subtitle track row with the given identifier.
    pub fn get_subtitle_track_by_id(&self, track_id: u128) -> (r: Result<SubtitleTrack, ServiceError>)
        ensures
            match r {
                Ok(row) => self@.subtitles.contains_key(track_id) && row@ == self@.subtitles[track_id],
                Err(e) => e == ServiceError::NotFoundError && !self@.subtitles.contains_key(track_id),
            },
    {
        match self.subtitle_rows.get(&track_id) {
            Some(row) => Ok(row.clone()),
            None => Err(ServiceError::NotFoundError),
        }
    }

    /// Fetches the container row with the given identifier.
    pub fn get_container_meta_by_id(&self, container_meta_id: u128) -> (r: Result<ContainerMeta, ServiceError>)
        ensures
            match r {
                Ok(row) => self@.containers.contains_key(container_meta_id)
                    && row@ == self@.containers[container_meta_id],
                Err(e) => e == ServiceError::NotFoundError
                    && !self@.containers.contains_key(container_meta_id),
            },
    {
        match self.container_rows.get(&container_meta_id) {
            Some(row) => Ok(row.clone()),
            None => Err(ServiceError::NotFoundError),
        }
    }

    /// Replaces the video track row with the given identifier; the stored
    /// identifier and container back-reference are kept.
    pub fn update_video_track_by_id(&mut self, track_id: u128, in_track: &VideoTrack) -> (r: Result<VideoTrack, ServiceError>)
        ensures
            match r {
                Ok(row) => old(self)@.videos.contains_key(track_id)
                    && row@ == video_row_updated(old(self)@.videos[track_id], in_track@)
                    && final(self)@ == (MetaState {
                        videos: old(self)@.videos.insert(track_id, row@),
                        ..old(self)@
                    }),
                Err(e) => e == ServiceError::NotFoundError
                    && !old(self)@.videos.contains_key(track_id) && *final(self) == *old(self),
            },
    {
        let cur = match self.video_rows.get(&track_id) {
            Some(c) => c.clone(),
            None => {
                return Err(ServiceError::NotFoundError);
            },
        };
        let row = VideoTrack {
            id: cur.id,
            container_meta_id: cur.container_meta_id,
            name: in_track.name.clone(),
            media_type: in_track.media_type.clone(),
            width: in_track.width,
            height: in_track.height,
            bit_rate: in_track.bit_rate,
            frame_rate: in_track.frame_rate,
        };
        proof {
            lemma_map_values_insert(self.video_rows@, |t: VideoTrack| t@, track_id, row);
        }
        let out = row.clone();
        self.video_rows.insert(track_id, row);
        Ok(out)
    }

    /// Replaces the audio track row with the given identifier; the stored
    /// identifier and container back-reference are kept.
    pub fn update_audio_track_by_id(&mut self, track_id: u128, in_track: &AudioTrack) -> (r: Result<AudioTrack, ServiceError>)
        ensures
            match r {
                Ok(row) => old(self)@.audios.contains_key(track_id)
                    && row@ == audio_row_updated(old(self)@.audios[track_id], in_track@)
                    && final(self)@ == (MetaState {
                        audios: old(self)@.audios.insert(track_id, row@),
                        ..old(self)@
                    }),
                Err(e) => e == ServiceError::NotFoundError
                    && !old(self)@.audios.contains_key(track_id) && *final(self) == *old(self),
            },
    {
        let cur = match self.audio_rows.get(&track_id) {
            Some(c) => c.clone(),
            None => {
                return Err(ServiceError::NotFoundError);
            },
        };
        let row = AudioTrack {
            id: cur.id,
            container_meta_id: cur.container_meta_id,
            name: in_track.name.clone(),
            media_type: in_track.media_type.clone(),
            bit_rate: in_track.bit_rate,
            channel_config: in_track.channel_config.clone(),
            sample_frequenz: in_track.sample_frequenz,
        };
        proof {
            lemma_map_values_insert(self.audio_rows@, |t: AudioTrack| t@, track_id, row);
        }
        let out = row.clone();
        self.audio_rows.insert(track_id, row);
        Ok(out)
    }

    /// Replaces the subtitle track row with the given identifier; the stored
    /// identifier and container back-reference are kept.
    pub fn update_subtitle_track_by_id(&mut self, track_id: u128, in_track: &SubtitleTrack) -> (r: Result<SubtitleTrack, ServiceError>)
        ensures
            match r {
                Ok(row) => old(self)@.subtitles.contains_key(track_id)
                    && row@ == subtitle_row_updated(old(self)@.subtitles[track_id], in_track@)
                    && final(self)@ == (MetaState {
                        subtitles: old(self)@.subtitles.insert(track_id, row@),
                        ..old(self)@
                    }),
                Err(e) => e == ServiceError::NotFoundError
                    && !old(self)@.subtitles.contains_key(track_id) && *final(self) == *old(self),
            },
    {
        let cur = match self.subtitle_rows.get(&track_id) {
            Some(c) => c.clone(),
            None => {
                return Err(ServiceError::NotFoundError);
            },
        };
        let row = SubtitleTrack {
            id: cur.id,
            container_meta_id: cur.container_meta_id,
            name: in_track.name.clone(),
            media_type: in_track.media_type.clone(),
        };
        proof {
            lemma_map_values_insert(self.subtitle_rows@, |t: SubtitleTrack| t@, track_id, row);
        }
        let out = row.clone();
        self.subtitle_rows.insert(track_id, row);
        Ok(out)
    }

    /// Replaces the container row with the given identifier; the stored
    /// identifier is kept.
    pub fn update_container_meta_by_id(&mut self, container_meta_id: u128, in_container_meta: &ContainerMeta) -> (r: Result<ContainerMeta, ServiceError>)
        ensures
            match r {
                Ok(row) => old(self)@.containers.contains_key(container_meta_id)
                    && row@ == container_row_updated(
                        old(self)@.containers[container_meta_id],
                        in_container_meta@,
                    )
                    && final(self)@ == (MetaState {
                        containers: old(self)@.containers.insert(container_meta_id, row@),
                        ..old(self)@
                    }),
                Err(e) => e == ServiceError::NotFoundError
                    && !old(self)@.containers.contains_key(container_meta_id)
                    && *final(self) == *old(self),
            },
    {
        let cur = match self.container_rows.get(&container_meta_id) {
            Some(c) => c.clone(),
            None => {
                return Err(ServiceError::NotFoundError);
            },
        };
        let row = ContainerMeta {
            id: cur.id,
            date_time_created: in_container_meta.date_time_created,
            date_time_updated: in_container_meta.date_time_updated,
            title: in_container_meta.title.clone(),
            description: in_container_meta.description.clone(),
            tags: crate::container_meta::clone_tags(&in_container_meta.tags),
            video_track_id: in_container_meta.video_track_id,
            audio_track_id: in_container_meta.audio_track_id,
            subtitle_track_id: in_container_meta.subtitle_track_id,
            file_size_in_kb: in_container_meta.file_size_in_kb,
            duration: in_container_meta.duration,
        };
        proof {
            lemma_map_values_insert(self.container_rows@, |t: ContainerMeta| t@, container_meta_id, row);
        }
        let out = row.clone();
        self.container_rows.insert(container_meta_id, row);
        Ok(out)
    }

    /// Removes the video track row with the given identifier; an absent row
    /// is not an error.
    pub fn delete_video_track_by_id(&mut self, track_id: u128) -> (r: Result<(), ServiceError>)
        ensures
            r == Result::<(), ServiceError>::Ok(()),
            final(self)@ == (MetaState { videos: old(self)@.videos.remove(track_id), ..old(self)@ }),
    {
        proof {
            lemma_map_values_remove(self.video_rows@, |t: VideoTrack| t@, track_id);
        }
        self.video_rows.remove(&track_id);
        Ok(())
    }

    /// Removes the audio track row with the given identifier; an absent row
    /// is not an error.
    pub fn delete_audio_track_by_id(&mut self, track_id: u128) -> (r: Result<(), ServiceError>)
        ensures
            r == Result::<(), ServiceError>::Ok(()),
            final(self)@ == (MetaState { audios: old(self)@.audios.remove(track_id), ..old(self)@ }),
    {
        proof {
            lemma_map_values_remove(self.audio_rows@, |t: AudioTrack| t@, track_id);
        }
        self.audio_rows.remove(&track_id);
        Ok(())
    }

    /// Removes the subtitle track row with the given identifier; an absent
    /// row is not an error.
    pub fn delete_subtitle_track_by_id(&mut self, track_id: u128) -> (r: Result<(), ServiceError>)
        ensures
            r == Result::<(), ServiceError>::Ok(()),
            final(self)@ == (MetaState {
                subtitles: old(self)@.subtitles.remove(track_id),
                ..old(self)@
            }),
    {
        proof {
            lemma_map_values_remove(self.subtitle_rows@, |t: SubtitleTrack| t@, track_id);
        }
        self.subtitle_rows.remove(&track_id);
        Ok(())
    }

    /// Removes the container row with the given identifier; an absent row is
    /// not an error.
    pub fn delete_container_meta_by_id(&mut self, container_meta_id: u128) -> (r: Result<(), ServiceError>)
        ensures
            r == Result::<(), ServiceError>::Ok(()),
            final(self)@ == (MetaState {
                containers: old(self)@.containers.remove(container_meta_id),
                ..old(self)@
            }),
    {
        proof {
            lemma_map_values_remove(self.container_rows@, |t: ContainerMeta| t@, container_meta_id);
        }
        self.container_rows.remove(&container_meta_id);
        Ok(())
    }
}

} // verus!
