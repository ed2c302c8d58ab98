//! The container aggregate root.

use vstd::prelude::*;

use crate::model::Model;

verus! {

/// Mathematical image of a [`ContainerMeta`] row: strings as character
/// sequences, everything else as plain values.
pub struct ContainerMetaView {
    pub id: u128,
    pub date_time_created: i64,
    pub date_time_updated: i64,
    pub title: Seq<char>,
    pub description: Seq<char>,
    pub tags: Seq<Option<Seq<char>>>,
    pub video_track_id: u128,
    pub audio_track_id: u128,
    pub subtitle_track_id: u128,
    pub file_size_in_kb: i64,
    pub duration: i64,
}

/// Aggregate root for one ingested container.
///
/// Identifiers are 128-bit UUID values; `0` is the nil sentinel and, in the
/// three track-id fields, means "no track of this kind". Timestamps are whole
/// seconds since the Unix epoch, and `duration` is whole seconds with any
/// fraction truncated. `tags` keeps the caller-supplied order, absent slots
/// included.
#[derive(Debug, PartialEq)]
pub struct ContainerMeta {
    pub id: u128,
    pub date_time_created: i64,
    pub date_time_updated: i64,
    pub title: String,
    pub description: String,
    pub tags: Vec<Option<String>>,
    pub video_track_id: u128,
    pub audio_track_id: u128,
    pub subtitle_track_id: u128,
    pub file_size_in_kb: i64,
    pub duration: i64,
}

impl View for ContainerMeta {
    type V = ContainerMetaView;

    open spec fn view(&self) -> ContainerMetaView {
        ContainerMetaView {
            id: self.id,
            date_time_created: self.date_time_created,
            date_time_updated: self.date_time_updated,
            title: self.title@,
            description: self.description@,
            tags: self.tags.deep_view(),
            video_track_id: self.video_track_id,
            audio_track_id: self.audio_track_id,
            subtitle_track_id: self.subtitle_track_id,
            file_size_in_kb: self.file_size_in_kb,
            duration: self.duration,
        }
    }
}

/// Duplicates a tag list element for element, keeping order and absent slots.
pub fn clone_tags(tags: &Vec<Option<String>>) -> (r: Vec<Option<String>>)
    ensures
        r.deep_view() == tags.deep_view(),
{
    let mut out: Vec<Option<String>> = Vec::new();
    let mut i: usize = 0;
    while i < tags.len()
        invariant
            i <= tags.len(),
            out@.len() == i as int,
            out.deep_view() == tags.deep_view().take(i as int),
        decreases tags.len() - i,
    {
        let entry = match &tags[i] {
            Some(s) => Some(s.clone()),
            None => None,
        };
        proof {
            assert(entry.deep_view() == tags@[i as int].deep_view());
            assert(tags.deep_view()[i as int] == tags@[i as int].deep_view());
        }
        out.push(entry);
        i = i + 1;
        proof {
            assert(out.deep_view() =~= tags.deep_view().take(i as int));
        }
    }
    proof {
        assert(tags.deep_view().take(tags.len() as int) =~= tags.deep_view());
    }
    out
}

impl Clone for ContainerMeta {
    /// The copy carries the same abstract value.
    fn clone(&self) -> (r: Self)
        ensures
            r@ == self@,
    {
        ContainerMeta {
            id: self.id,
            date_time_created: self.date_time_created,
            date_time_updated: self.date_time_updated,
            title: self.title.clone(),
            description: self.description.clone(),
            tags: clone_tags(&self.tags),
            video_track_id: self.video_track_id,
            audio_track_id: self.audio_track_id,
            subtitle_track_id: self.subtitle_track_id,
            file_size_in_kb: self.file_size_in_kb,
            duration: self.duration,
        }
    }
}

impl Model for ContainerMeta {
    open spec fn blank(self) -> bool {
        &&& self.id == 0
        &&& self.date_time_created == 0
        &&& self.date_time_updated == 0
        &&& self@.title == Seq::<char>::empty()
        &&& self@.description == Seq::<char>::empty()
        &&& self@.tags == Seq::<Option<Seq<char>>>::empty()
        &&& self.video_track_id == 0
        &&& self.audio_track_id == 0
        &&& self.subtitle_track_id == 0
        &&& self.file_size_in_kb == 0
        &&& self.duration == 0
    }

    /// A draft container: nil identifiers, epoch timestamps, empty text.
    fn new() -> (r: Self)
        ensures
            r.blank(),
    {
        let r = ContainerMeta {
            id: 0,
            date_time_created: 0,
            date_time_updated: 0,
            title: String::new(),
            description: String::new(),
            tags: Vec::new(),
            video_track_id: 0,
            audio_track_id: 0,
            subtitle_track_id: 0,
            file_size_in_kb: 0,
            duration: 0,
        };
        proof {
            assert(r@.tags =~= Seq::<Option<Seq<char>>>::empty());
        }
        r
    }
}

} // verus!
