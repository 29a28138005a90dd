//! Pointer input as the core sees it: one sample per frame, in whole pixels.

use vstd::prelude::*;

verus! {

/// A point of the window, in pixels.
#[derive(Clone, Copy, Debug, PartialEq, Eq, Hash, Structural)]
pub struct ScreenPoint {
    pub x: i32,
    pub y: i32,
}

/// The displacement between two points of the window, in pixels.
///
/// Every displacement is the difference of two screen points, so each
/// component lies within `-SPAN ..= SPAN`.
#[derive(Clone, Copy, Debug, PartialEq, Eq)]
pub struct ScreenDelta {
    dx: i64,
    dy: i64,
}

/// The largest distance, per axis, between two screen points.
pub const SPAN: i64 = 0xffff_ffff;

impl ScreenPoint {
    /// The point at pixel `(x, y)`.
    pub fn new(x: i32, y: i32) -> (p: ScreenPoint)
        ensures
            p.x == x,
            p.y == y,
    {
        ScreenPoint { x, y }
    }

    /// The displacement that carries `earlier` to `self`.
    pub fn delta_from(&self, earlier: &ScreenPoint) -> (d: ScreenDelta)
        ensures
            d.dx() == self.x - earlier.x,
            d.dy() == self.y - earlier.y,
    {
        ScreenDelta { dx: self.x as i64 - earlier.x as i64, dy: self.y as i64 - earlier.y as i64 }
    }
}

impl ScreenDelta {
    #[verifier::type_invariant]
    spec fn in_span(self) -> bool {
        -SPAN <= self.dx <= SPAN && -SPAN <= self.dy <= SPAN
    }

    /// Horizontal component, positive to the right.
    pub closed spec fn dx(self) -> int {
        self.dx as int
    }

    /// Vertical component.
    pub closed spec fn dy(self) -> int {
        self.dy as int
    }

    /// The displacement by `(dx, dy)` pixels.
    pub fn new(dx: i32, dy: i32) -> (d: ScreenDelta)
        ensures
            d.dx() == dx,
            d.dy() == dy,
    {
        ScreenDelta { dx: dx as i64, dy: dy as i64 }
    }

    /// Horizontal component in pixels.
    pub fn horizontal(&self) -> (v: i64)
        ensures
            v == self.dx(),
            -SPAN <= v <= SPAN,
    {
        proof {
            use_type_invariant(self);
        }
        self.dx
    }

    /// Vertical component in pixels.
    pub fn vertical(&self) -> (v: i64)
        ensures
            v == self.dy(),
            -SPAN <= v <= SPAN,
    {
        proof {
            use_type_invariant(self);
        }
        self.dy
    }

    /// Whether the pointer did not move at all.
    pub fn is_zero(&self) -> (b: bool)
        ensures
            b == (self.dx() == 0 && self.dy() == 0),
    {
        self.dx == 0 && self.dy == 0
    }
}

/// What the platform and the overlay report about the pointer in one frame.
#[derive(Clone, Copy, Debug, PartialEq, Eq)]
pub struct PointerFrame {
    /// Where the pointer is, or `None` while it is outside the window.
    pub position: Option<ScreenPoint>,
    /// The primary button went down during this frame.
    pub primary_pressed: bool,
    /// The primary button went up during this frame.
    pub primary_released: bool,
    /// The pointer is over some region of the overlay.
    pub over_overlay: bool,
    /// An overlay element handled a click during this frame.
    pub overlay_clicked: bool,
}

impl PointerFrame {
    /// The overlay owns the pointer in this frame: the pointer hovers over
    /// it, or it has taken a click.
    pub open spec fn consumed(self) -> bool {
        self.over_overlay || self.overlay_clicked
    }

    /// Decides once, before any viewport handling, whether the overlay owns
    /// the pointer in this frame. When it does, the viewport must not pick
    /// and must not manipulate.
    pub fn overlay_consumed_pointer(&self) -> (consumed: bool)
        ensures
            consumed == self.consumed(),
    {
        self.over_overlay || self.overlay_clicked
    }
}

} // verus!
