//! Track kind classification.

use vstd::prelude::*;

verus! {

/// The media kind of one elementary stream inside a container.
#[derive(Clone, Copy, Debug, PartialEq, Eq, Structural)]
pub enum TrackType {
    Invalid,
    Video,
    Audio,
    Subtitle,
}

impl TrackType {
    /// Numeric code of the kind, as persisted by callers that store kinds as
    /// integers.
    pub fn to_i32(&self) -> (r: i32)
        ensures
            r == match *self {
                TrackType::Invalid => 0i32,
                TrackType::Video => 1i32,
                TrackType::Audio => 2i32,
                TrackType::Subtitle => 3i32,
            },
    {
        match self {
            TrackType::Invalid => 0,
            TrackType::Video => 1,
            TrackType::Audio => 2,
            TrackType::Subtitle => 3,
        }
    }
}

} // verus!
