//! The manipulation tools.

use vstd::prelude::*;

verus! {

/// The active manipulation mode. Exactly one is active at a time, and only
/// an explicit choice by the user changes it.
#[derive(Clone, Copy, Debug, PartialEq, Eq, Hash, Structural)]
pub enum Tool {
    /// Clicking picks the object under the pointer.
    Select,
    /// Dragging translates the selected object in the camera's plane.
    Move,
    /// Dragging turns the selected object about its own axes.
    Rotate,
    /// Dragging grows or shrinks the selected object uniformly.
    Scale,
}

impl Tool {
    /// Whether dragging with this tool changes a transform.
    pub open spec fn manipulates(self) -> bool {
        self != Tool::Select
    }

    /// Whether dragging with this tool changes a transform.
    pub fn is_manipulator(&self) -> (b: bool)
        ensures
            b == self.manipulates(),
    {
        match self {
            Tool::Select => false,
            _ => true,
        }
    }
}

impl Default for Tool {
    /// The editor starts with the selection tool.
    fn default() -> (t: Tool)
        ensures
            t == Tool::Select,
    {
        Tool::Select
    }
}

} // verus!
