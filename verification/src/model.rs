//! The common shape of the metadata entities and the kind selector used by
//! the polymorphic retrieval dispatcher.

use vstd::prelude::*;

verus! {

/// Selects which entity shape a retrieval should fetch.
#[derive(Clone, Copy, Debug, PartialEq, Eq, Structural)]
pub enum ModelType {
    ContainerMeta,
    VideoTrack,
    AudioTrack,
    SubtitleTrack,
}

/// Every metadata entity offers a blank draft constructor; `blank` pins the
/// exact draft each type's `new` returns.
pub trait Model: Sized {
    /// Holds exactly of the value that `new` returns.
    spec fn blank(self) -> bool;

    /// Constructs the blank draft of the entity.
    fn new() -> (r: Self)
        ensures
            r.blank(),
    ;
}

} // verus!
