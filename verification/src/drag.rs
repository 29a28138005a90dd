//! One frame's worth of dragging.

use vstd::prelude::*;
use crate::handle::ObjectHandle;
use crate::manipulator::{delta_for, transform_delta, translation, CameraBasis, TransformDelta};
use crate::pointer::{ScreenDelta, ScreenPoint};
use crate::tool::Tool;

verus! {

/// The pointer's movement during one frame of an active drag, and what it
/// acts on. The movement is measured from where the pointer was in the
/// previous frame, never from where the drag began.
#[derive(Clone, Copy, Debug, PartialEq, Eq, Structural)]
pub struct DragMotion {
    /// The tool that was active when the pointer moved.
    pub tool: Tool,
    /// The selected object.
    pub target: ObjectHandle,
    /// Where the pointer was in the previous frame.
    pub from: ScreenPoint,
    /// Where the pointer is now.
    pub to: ScreenPoint,
}

impl DragMotion {
    /// Horizontal movement in pixels.
    pub open spec fn dx(self) -> int {
        self.to.x - self.from.x
    }

    /// Vertical movement in pixels.
    pub open spec fn dy(self) -> int {
        self.to.y - self.from.y
    }

    /// The movement as a displacement.
    pub fn delta(&self) -> (d: ScreenDelta)
        ensures
            d.dx() == self.dx(),
            d.dy() == self.dy(),
    {
        self.to.delta_from(&self.from)
    }

    /// The change this movement makes to the target's transform, given the
    /// camera's basis for this frame if there is one.
    pub fn transform_delta(&self, basis: Option<CameraBasis>) -> (r: Option<TransformDelta>)
        ensures
            r == delta_for(self.tool, self.dx(), self.dy(), basis),
            (self.tool == Tool::Move && basis is Some) ==> r is Some && r->0 is Translate
                && r->0.offset() == translation(basis->0, self.dx(), self.dy()),
    {
        transform_delta(self.tool, self.delta(), basis)
    }
}

} // verus!
