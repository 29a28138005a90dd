//! What a ray cast through the pointer can report, and what a pick makes
//! of it.

use vstd::prelude::*;
use crate::handle::ObjectHandle;

verus! {

/// Why no ray could be formed through a screen point.
#[derive(Clone, Copy, Debug, PartialEq, Eq, Structural)]
pub enum GeometryError {
    /// The camera's projection cannot be inverted.
    DegenerateProjection,
}

/// What one frame's pick did to the selection.
#[derive(Clone, Copy, Debug, PartialEq, Eq, Structural)]
pub enum PickOutcome {
    /// No pick was due in this frame; the selection is as it was.
    Ignored,
    /// The ray hit this object, which is now the selection.
    Selected(ObjectHandle),
    /// The ray hit nothing; nothing is selected now.
    Cleared,
    /// No ray could be cast; the selection is as it was.
    Failed(GeometryError),
}

/// The outcome of a pick that was due, by what the ray cast reported: the
/// nearest object hit, nothing, or no ray at all.
pub open spec fn classify(cast: Result<Option<ObjectHandle>, GeometryError>) -> PickOutcome {
    match cast {
        Ok(Some(hit)) => PickOutcome::Selected(hit),
        Ok(None) => PickOutcome::Cleared,
        Err(e) => PickOutcome::Failed(e),
    }
}

} // verus!
