//! The three track entity shapes: video, audio and subtitle.

use vstd::prelude::*;

use crate::model::Model;

verus! {

/// Mathematical image of a [`VideoTrack`] row.
pub struct VideoTrackView {
    pub id: u128,
    pub container_meta_id: u128,
    pub name: Seq<char>,
    pub media_type: Seq<char>,
    pub width: i32,
    pub height: i32,
    pub bit_rate: i32,
    pub frame_rate: i32,
}

/// One video stream. `bit_rate` is kilobits per second (raw bits per second
/// divided by 1000, truncating); `container_meta_id` is a back-reference to
/// the owning container.
#[derive(Debug, PartialEq)]
pub struct VideoTrack {
    pub id: u128,
    pub container_meta_id: u128,
    pub name: String,
    pub media_type: String,
    pub width: i32,
    pub height: i32,
    pub bit_rate: i32,
    pub frame_rate: i32,
}

impl View for VideoTrack {
    type V = VideoTrackView;

    open spec fn view(&self) -> VideoTrackView {
        VideoTrackView {
            id: self.id,
            container_meta_id: self.container_meta_id,
            name: self.name@,
            media_type: self.media_type@,
            width: self.width,
            height: self.height,
            bit_rate: self.bit_rate,
            frame_rate: self.frame_rate,
        }
    }
}

impl Clone for VideoTrack {
    /// The copy carries the same abstract value.
    fn clone(&self) -> (r: Self)
        ensures
            r@ == self@,
    {
        VideoTrack {
            id: self.id,
            container_meta_id: self.container_meta_id,
            name: self.name.clone(),
            media_type: self.media_type.clone(),
            width: self.width,
            height: self.height,
            bit_rate: self.bit_rate,
            frame_rate: self.frame_rate,
        }
    }
}

impl Model for VideoTrack {
    open spec fn blank(self) -> bool {
        &&& self.id == 0
        &&& self.container_meta_id == 0
        &&& self@.name == Seq::<char>::empty()
        &&& self@.media_type == Seq::<char>::empty()
        &&& self.width == 0
        &&& self.height == 0
        &&& self.bit_rate == 0
        &&& self.frame_rate == 0
    }

    /// A draft video track: nil identifiers, empty text, zero geometry.
    fn new() -> (r: Self)
        ensures
            r.blank(),
    {
        VideoTrack {
            id: 0,
            container_meta_id: 0,
            name: String::new(),
            media_type: String::new(),
            width: 0,
            height: 0,
            bit_rate: 0,
            frame_rate: 0,
        }
    }
}

/// Mathematical image of an [`AudioTrack`] row.
pub struct AudioTrackView {
    pub id: u128,
    pub container_meta_id: u128,
    pub name: Seq<char>,
    pub media_type: Seq<char>,
    pub bit_rate: i32,
    pub channel_config: Seq<char>,
    pub sample_frequenz: i32,
}

/// One audio stream. `channel_config` holds a speaker-layout label, or the
/// `"-"` sentinel when the layout could not be determined;
/// `sample_frequenz` is in hertz.
#[derive(Debug, PartialEq)]
pub struct AudioTrack {
    pub id: u128,
    pub container_meta_id: u128,
    pub name: String,
    pub media_type: String,
    pub bit_rate: i32,
    pub channel_config: String,
    pub sample_frequenz: i32,
}

impl View for AudioTrack {
    type V = AudioTrackView;

    open spec fn view(&self) -> AudioTrackView {
        AudioTrackView {
            id: self.id,
            container_meta_id: self.container_meta_id,
            name: self.name@,
            media_type: self.media_type@,
            bit_rate: self.bit_rate,
            channel_config: self.channel_config@,
            sample_frequenz: self.sample_frequenz,
        }
    }
}

impl Clone for AudioTrack {
    /// The copy carries the same abstract value.
    fn clone(&self) -> (r: Self)
        ensures
            r@ == self@,
    {
        AudioTrack {
            id: self.id,
            container_meta_id: self.container_meta_id,
            name: self.name.clone(),
            media_type: self.media_type.clone(),
            bit_rate: self.bit_rate,
            channel_config: self.channel_config.clone(),
            sample_frequenz: self.sample_frequenz,
        }
    }
}

impl Model for AudioTrack {
    open spec fn blank(self) -> bool {
        &&& self.id == 0
        &&& self.container_meta_id == 0
        &&& self@.name == Seq::<char>::empty()
        &&& self@.media_type == Seq::<char>::empty()
        &&& self.bit_rate == 0
        &&& self@.channel_config == Seq::<char>::empty()
        &&& self.sample_frequenz == 0
    }

    /// A draft audio track: nil identifiers, empty text, zero rates.
    fn new() -> (r: Self)
        ensures
            r.blank(),
    {
        AudioTrack {
            id: 0,
            container_meta_id: 0,
            name: String::new(),
            media_type: String::new(),
            bit_rate: 0,
            channel_config: String::new(),
            sample_frequenz: 0,
        }
    }
}

/// Mathematical image of a [`SubtitleTrack`] row.
pub struct SubtitleTrackView {
    pub id: u128,
    pub container_meta_id: u128,
    pub name: Seq<char>,
    pub media_type: Seq<char>,
}

/// One subtitle stream; only its media subtype is modeled.
#[derive(Debug, PartialEq)]
pub struct SubtitleTrack {
    pub id: u128,
    pub container_meta_id: u128,
    pub name: String,
    pub media_type: String,
}

impl View for SubtitleTrack {
    type V = SubtitleTrackView;

    open spec fn view(&self) -> SubtitleTrackView {
        SubtitleTrackView {
            id: self.id,
            container_meta_id: self.container_meta_id,
            name: self.name@,
            media_type: self.media_type@,
        }
    }
}

impl Clone for SubtitleTrack {
    /// The copy carries the same abstract value.
    fn clone(&self) -> (r: Self)
        ensures
            r@ == self@,
    {
        SubtitleTrack {
            id: self.id,
            container_meta_id: self.container_meta_id,
            name: self.name.clone(),
            media_type: self.media_type.clone(),
        }
    }
}

impl Model for SubtitleTrack {
    open spec fn blank(self) -> bool {
        &&& self.id == 0
        &&& self.container_meta_id == 0
        &&& self@.name == Seq::<char>::empty()
        &&& self@.media_type == Seq::<char>::empty()
    }

    /// A draft subtitle track: nil identifiers, empty text.
    fn new() -> (r: Self)
        ensures
            r.blank(),
    {
        SubtitleTrack {
            id: 0,
            container_meta_id: 0,
            name: String::new(),
            media_type: String::new(),
        }
    }
}

} // verus!
