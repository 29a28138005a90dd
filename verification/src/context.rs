//! The interaction context: selection, active tool and drag session, and
//! the rules by which one frame of pointer input changes them.
//!
//! The rules are stated once, as functions of [`ContextModel`]. The
//! executable [`InteractionContext`] follows them step for step.

use vstd::prelude::*;
use crate::drag::DragMotion;
use crate::handle::ObjectHandle;
use crate::picking::{classify, GeometryError, PickOutcome};
use crate::pointer::{PointerFrame, ScreenPoint};
use crate::tool::Tool;

verus! {

/// The state of the interaction as a plain value.
pub struct ContextModel {
    /// The selected object, if any. There is never more than one.
    pub selection: Option<ObjectHandle>,
    /// The active tool.
    pub tool: Tool,
    /// While a drag session is active, where the pointer was when the
    /// session last looked; `None` while no session is active.
    pub anchor: Option<ScreenPoint>,
}

impl ContextModel {
    /// A drag session is active only under a manipulating tool and with an
    /// object selected.
    pub open spec fn wf(self) -> bool {
        self.anchor is Some ==> self.tool.manipulates() && self.selection is Some
    }

    /// Nothing selected, the selection tool active, no drag.
    pub open spec fn initial() -> ContextModel {
        ContextModel { selection: None, tool: Tool::Select, anchor: None }
    }

    /// The state after the user has chosen `tool`. A change of tool ends
    /// the drag session; choosing the active tool again changes nothing.
    pub open spec fn with_tool(self, tool: Tool) -> ContextModel {
        if tool == self.tool {
            self
        } else {
            ContextModel { selection: self.selection, tool, anchor: None }
        }
    }

    /// The state after the scene has been asked whether the selected
    /// object still exists. A selection that no longer resolves is dropped,
    /// and the drag session with it.
    pub open spec fn revalidated(self, resolves: bool) -> ContextModel {
        if self.selection is Some && !resolves {
            ContextModel { selection: None, tool: self.tool, anchor: None }
        } else {
            self
        }
    }

    /// The screen point through which a ray must be cast in this frame, if
    /// a pick is due: the overlay has left the pointer free, the selection
    /// tool is active, and the primary button went down inside the window.
    pub open spec fn pick_point(self, frame: PointerFrame) -> Option<ScreenPoint> {
        if !frame.consumed() && self.tool == Tool::Select && frame.primary_pressed {
            frame.position
        } else {
            None
        }
    }

    /// What this frame's pick does, given what the ray cast reported.
    pub open spec fn pick_outcome(
        self,
        frame: PointerFrame,
        cast: Result<Option<ObjectHandle>, GeometryError>,
    ) -> PickOutcome {
        if self.pick_point(frame) is Some {
            classify(cast)
        } else {
            PickOutcome::Ignored
        }
    }

    /// The state after this frame's pick. A hit replaces the selection, a
    /// miss clears it, and anything else leaves it alone.
    pub open spec fn after_pick(
        self,
        frame: PointerFrame,
        cast: Result<Option<ObjectHandle>, GeometryError>,
    ) -> ContextModel {
        match self.pick_outcome(frame, cast) {
            PickOutcome::Selected(hit) => ContextModel {
                selection: Some(hit),
                tool: self.tool,
                anchor: self.anchor,
            },
            PickOutcome::Cleared => ContextModel {
                selection: None,
                tool: self.tool,
                anchor: self.anchor,
            },
            _ => self,
        }
    }

    /// The movement that this frame's drag step reports: the pointer is
    /// free, no button edge occurred, a session is active, and the pointer
    /// is somewhere else than in the previous frame.
    pub open spec fn drag_motion(self, frame: PointerFrame) -> Option<DragMotion> {
        if frame.primary_released || frame.consumed() || frame.primary_pressed
            || !self.tool.manipulates() {
            None
        } else {
            match (self.anchor, frame.position, self.selection) {
                (Some(last), Some(now), Some(target)) => if now == last {
                    None
                } else {
                    Some(DragMotion { tool: self.tool, target, from: last, to: now })
                },
                _ => None,
            }
        }
    }

    /// The state after this frame's drag step.
    ///
    /// A release ends the session, whoever owns the pointer. Otherwise a
    /// frame that the overlay owns changes nothing. A press with a
    /// manipulating tool and a selection starts a session at the pointer.
    /// In any other frame an active session moves its anchor to the
    /// pointer.
    pub open spec fn after_drag(self, frame: PointerFrame) -> ContextModel {
        if frame.primary_released {
            ContextModel { selection: self.selection, tool: self.tool, anchor: None }
        } else if frame.consumed() || !self.tool.manipulates() || self.selection is None
            || frame.position is None {
            self
        } else if frame.primary_pressed || self.anchor is Some {
            ContextModel { selection: self.selection, tool: self.tool, anchor: frame.position }
        } else {
            self
        }
    }

    /// The state after a whole frame: the pick first, then the drag step.
    pub open spec fn after_frame(
        self,
        frame: PointerFrame,
        cast: Result<Option<ObjectHandle>, GeometryError>,
    ) -> ContextModel {
        self.after_pick(frame, cast).after_drag(frame)
    }

    /// The movement that a whole frame reports.
    pub open spec fn frame_motion(
        self,
        frame: PointerFrame,
        cast: Result<Option<ObjectHandle>, GeometryError>,
    ) -> Option<DragMotion> {
        self.after_pick(frame, cast).drag_motion(frame)
    }
}

/// What one frame did: the pick's outcome and the drag's movement.
#[derive(Clone, Copy, Debug, PartialEq, Eq, Structural)]
pub struct FrameOutcome {
    /// What the pick did to the selection.
    pub pick: PickOutcome,
    /// The movement of an active drag, if the pointer moved.
    pub motion: Option<DragMotion>,
}

/// The interaction state that the editor threads through its per-frame
/// systems. It is owned by one caller and changed only through the methods
/// below.
#[derive(Clone, Copy, Debug, PartialEq, Eq)]
pub struct InteractionContext {
    selection: Option<ObjectHandle>,
    tool: Tool,
    anchor: Option<ScreenPoint>,
}

impl View for InteractionContext {
    type V = ContextModel;

    closed spec fn view(&self) -> ContextModel {
        ContextModel { selection: self.selection, tool: self.tool, anchor: self.anchor }
    }
}

impl InteractionContext {
    #[verifier::type_invariant]
    spec fn well_formed(self) -> bool {
        self@.wf()
    }

    /// The context of a freshly opened editor.
    pub fn new() -> (ctx: InteractionContext)
        ensures
            ctx@ == ContextModel::initial(),
            ctx@.wf(),
    {
        InteractionContext { selection: None, tool: Tool::Select, anchor: None }
    }

    /// The selected object, if any.
    pub fn selection(&self) -> (s: Option<ObjectHandle>)
        ensures
            s == self@.selection,
    {
        self.selection
    }

    /// The active tool.
    pub fn tool(&self) -> (t: Tool)
        ensures
            t == self@.tool,
    {
        self.tool
    }

    /// Whether a drag session is active.
    pub fn is_dragging(&self) -> (b: bool)
        ensures
            b == (self@.anchor is Some),
            b ==> self@.tool.manipulates() && self@.selection is Some,
    {
        proof {
            use_type_invariant(self);
        }
        self.anchor.is_some()
    }

    /// Makes `tool` the active tool, as the user chose it in the toolbar.
    pub fn set_tool(&mut self, tool: Tool)
        ensures
            final(self)@ == old(self)@.with_tool(tool),
            final(self)@.wf(),
    {
        proof {
            use_type_invariant(&*self);
        }
        if tool != self.tool {
            *self = InteractionContext { selection: self.selection, tool, anchor: None };
        }
    }

    /// Takes note of whether the selected object still resolves in the
    /// scene. Call it each frame before the selection is used; `resolves`
    /// is not looked at while nothing is selected.
    pub fn revalidate(&mut self, resolves: bool)
        ensures
            final(self)@ == old(self)@.revalidated(resolves),
            final(self)@.wf(),
    {
        proof {
            use_type_invariant(&*self);
        }
        if self.selection.is_some() && !resolves {
            *self = InteractionContext { selection: None, tool: self.tool, anchor: None };
        }
    }

    /// Where to cast a ray in this frame, or `None` if no pick is due.
    pub fn pick_point(&self, frame: &PointerFrame) -> (p: Option<ScreenPoint>)
        ensures
            p == self@.pick_point(*frame),
    {
        if !frame.overlay_consumed_pointer() && self.tool == Tool::Select
            && frame.primary_pressed {
            frame.position
        } else {
            None
        }
    }

    /// Applies this frame's pick. `cast` is what the ray through
    /// [`InteractionContext::pick_point`] reported; it is not looked at
    /// when no pick is due.
    pub fn resolve_pick(
        &mut self,
        frame: &PointerFrame,
        cast: Result<Option<ObjectHandle>, GeometryError>,
    ) -> (outcome: PickOutcome)
        ensures
            outcome == old(self)@.pick_outcome(*frame, cast),
            final(self)@ == old(self)@.after_pick(*frame, cast),
            final(self)@.wf(),
    {
        proof {
            use_type_invariant(&*self);
        }
        if self.pick_point(frame).is_none() {
            return PickOutcome::Ignored;
        }
        match cast {
            Ok(Some(hit)) => {
                *self = InteractionContext {
                    selection: Some(hit),
                    tool: self.tool,
                    anchor: self.anchor,
                };
                PickOutcome::Selected(hit)
            },
            Ok(None) => {
                *self = InteractionContext { selection: None, tool: self.tool, anchor: self.anchor };
                PickOutcome::Cleared
            },
            Err(e) => PickOutcome::Failed(e),
        }
    }

    /// Runs this frame's drag step and reports the pointer's movement, if
    /// an active drag moved.
    pub fn drag_step(&mut self, frame: &PointerFrame) -> (motion: Option<DragMotion>)
        ensures
            motion == old(self)@.drag_motion(*frame),
            final(self)@ == old(self)@.after_drag(*frame),
            final(self)@.wf(),
    {
        proof {
            use_type_invariant(&*self);
        }
        if frame.primary_released {
            *self = InteractionContext { selection: self.selection, tool: self.tool, anchor: None };
            return None;
        }
        if frame.overlay_consumed_pointer() || !self.tool.is_manipulator() {
            return None;
        }
        let target = match self.selection {
            Some(target) => target,
            None => {
                return None;
            },
        };
        let now = match frame.position {
            Some(now) => now,
            None => {
                return None;
            },
        };
        if frame.primary_pressed {
            *self = InteractionContext {
                selection: self.selection,
                tool: self.tool,
                anchor: Some(now),
            };
            return None;
        }
        match self.anchor {
            None => None,
            Some(last) => {
                *self = InteractionContext {
                    selection: self.selection,
                    tool: self.tool,
                    anchor: Some(now),
                };
                if now == last {
                    None
                } else {
                    Some(DragMotion { tool: self.tool, target, from: last, to: now })
                }
            },
        }
    }

    /// Runs one frame in its fixed order: the pick, then the drag step.
    pub fn advance(
        &mut self,
        frame: &PointerFrame,
        cast: Result<Option<ObjectHandle>, GeometryError>,
    ) -> (outcome: FrameOutcome)
        ensures
            outcome.pick == old(self)@.pick_outcome(*frame, cast),
            outcome.motion == old(self)@.frame_motion(*frame, cast),
            final(self)@ == old(self)@.after_frame(*frame, cast),
            final(self)@.wf(),
    {
        let pick = self.resolve_pick(frame, cast);
        let motion = self.drag_step(frame);
        FrameOutcome { pick, motion }
    }
}

impl Default for InteractionContext {
    /// The context of a freshly opened editor.
    fn default() -> (ctx: InteractionContext)
        ensures
            ctx@ == ContextModel::initial(),
    {
        InteractionContext::new()
    }
}

} // verus!
