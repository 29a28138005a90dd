//! The orbit camera: a camera that looks at a focus point from a distance
//! and is steered by pointer motion and the scroll wheel.
//!
//! Units. Lengths are multiples of `1 / LENGTH_ONE` scene units, pointer
//! motion is in pixels, scroll in multiples of `1 / SCROLL_ONE` notches.
//! Angles are multiples of `1 / ORBIT_ANGLE_ONE` radians, so a rotation
//! sensitivity counts angle units per pixel. A zoom sensitivity counts
//! thousandths per notch, which makes `ZOOM_ONE` the fixed-point 1 of the
//! factor by which a scroll scales the radius.

use vstd::prelude::*;
use crate::arith::lemma_product_bounded;
use crate::manipulator::{
    lemma_unit_is_bounded, CameraBasis, Direction, Offset, BASIS_ONE, COMPONENT_LIMIT,
};

verus! {

/// Length units per scene unit.
pub const LENGTH_ONE: i32 = 1_000;

/// Scroll units per notch of the wheel.
pub const SCROLL_ONE: i32 = 1_000;

/// Angle units per radian.
pub const ORBIT_ANGLE_ONE: i64 = 1_000_000;

/// The fixed-point 1 of the zoom factor.
pub const ZOOM_ONE: i128 = 1_000_000;

/// Position units per scene unit: `LENGTH_ONE` times `BASIS_ONE`.
pub const POSITION_ONE: i64 = 10_000_000_000;

/// The closest the camera comes to its focus: 2 scene units.
pub const MIN_RADIUS: u32 = 2_000;

/// The farthest the camera goes from its focus: 20 scene units.
pub const MAX_RADIUS: u32 = 20_000;

/// The largest sum, per axis, that one frame's events can reach.
pub const ACCUMULATION_LIMIT: i128 = 0x8000_0000_0000_0000_0000_0000;

/// A point of the scene in length units.
#[derive(Clone, Copy, Debug, PartialEq, Eq, Hash, Structural)]
pub struct WorldPoint {
    pub x: i32,
    pub y: i32,
    pub z: i32,
}

/// A camera position in multiples of `1 / POSITION_ONE` scene units.
#[derive(Clone, Copy, Debug, PartialEq, Eq, Hash, Structural)]
pub struct CameraPosition {
    pub x: i64,
    pub y: i64,
    pub z: i64,
}

/// One input event that concerns the orbit camera.
#[derive(Clone, Copy, Debug, PartialEq, Eq, Structural)]
pub enum OrbitEvent {
    /// The pointer moved by this many pixels.
    Motion { dx: i32, dy: i32 },
    /// The wheel turned by this many scroll units.
    Scroll { amount: i32 },
}

impl OrbitEvent {
    /// The horizontal motion that the event carries.
    pub open spec fn dx(self) -> int {
        match self {
            OrbitEvent::Motion { dx, .. } => dx as int,
            OrbitEvent::Scroll { .. } => 0,
        }
    }

    /// The vertical motion that the event carries.
    pub open spec fn dy(self) -> int {
        match self {
            OrbitEvent::Motion { dy, .. } => dy as int,
            OrbitEvent::Scroll { .. } => 0,
        }
    }

    /// The scroll that the event carries.
    pub open spec fn scroll(self) -> int {
        match self {
            OrbitEvent::Motion { .. } => 0,
            OrbitEvent::Scroll { amount } => amount as int,
        }
    }
}

/// The sum of the horizontal motion of all events.
pub open spec fn total_dx(events: Seq<OrbitEvent>) -> int
    decreases events.len(),
{
    if events.len() == 0 {
        0
    } else {
        total_dx(events.drop_last()) + events.last().dx()
    }
}

/// The sum of the vertical motion of all events.
pub open spec fn total_dy(events: Seq<OrbitEvent>) -> int
    decreases events.len(),
{
    if events.len() == 0 {
        0
    } else {
        total_dy(events.drop_last()) + events.last().dy()
    }
}

/// The sum of the scroll of all events.
pub open spec fn total_scroll(events: Seq<OrbitEvent>) -> int
    decreases events.len(),
{
    if events.len() == 0 {
        0
    } else {
        total_scroll(events.drop_last()) + events.last().scroll()
    }
}

/// What one frame's events add up to.
#[derive(Clone, Copy, Debug, PartialEq, Eq)]
pub struct FrameMotion {
    dx: i128,
    dy: i128,
    scroll: i128,
}

impl FrameMotion {
    #[verifier::type_invariant]
    spec fn within_limit(self) -> bool {
        &&& -ACCUMULATION_LIMIT <= self.dx <= ACCUMULATION_LIMIT
        &&& -ACCUMULATION_LIMIT <= self.dy <= ACCUMULATION_LIMIT
        &&& -ACCUMULATION_LIMIT <= self.scroll <= ACCUMULATION_LIMIT
    }

    /// Horizontal pointer motion while the secondary button was held.
    pub closed spec fn dx(self) -> int {
        self.dx as int
    }

    /// Vertical pointer motion while the secondary button was held.
    pub closed spec fn dy(self) -> int {
        self.dy as int
    }

    /// Scroll of the wheel.
    pub closed spec fn scroll(self) -> int {
        self.scroll as int
    }

    /// A frame with the given sums.
    pub fn new(dx: i64, dy: i64, scroll: i64) -> (m: FrameMotion)
        ensures
            m.dx() == dx,
            m.dy() == dy,
            m.scroll() == scroll,
    {
        FrameMotion { dx: dx as i128, dy: dy as i128, scroll: scroll as i128 }
    }

    /// Adds up one frame's events. Pointer motion counts only while the
    /// secondary button is held; scroll always counts.
    pub fn accumulate(events: &[OrbitEvent], secondary_held: bool) -> (m: FrameMotion)
        ensures
            m.dx() == if secondary_held { total_dx(events@) } else { 0 },
            m.dy() == if secondary_held { total_dy(events@) } else { 0 },
            m.scroll() == total_scroll(events@),
    {
        let mut dx: i128 = 0;
        let mut dy: i128 = 0;
        let mut scroll: i128 = 0;
        let mut i: usize = 0;
        while i < events.len()
            invariant
                i <= events.len(),
                dx == total_dx(events@.take(i as int)),
                dy == total_dy(events@.take(i as int)),
                scroll == total_scroll(events@.take(i as int)),
                -(i * 0x8000_0000) <= dx <= i * 0x8000_0000,
                -(i * 0x8000_0000) <= dy <= i * 0x8000_0000,
                -(i * 0x8000_0000) <= scroll <= i * 0x8000_0000,
            decreases events.len() - i,
        {
            proof {
                let next = events@.take(i + 1);
                assert(next.drop_last() =~= events@.take(i as int));
                assert(next.last() == events@[i as int]);
            }
            match events[i] {
                OrbitEvent::Motion { dx: ex, dy: ey } => {
                    dx = dx + ex as i128;
                    dy = dy + ey as i128;
                },
                OrbitEvent::Scroll { amount } => {
                    scroll = scroll + amount as i128;
                },
            }
            i = i + 1;
        }
        proof {
            assert(events@.take(i as int) =~= events@);
        }
        if secondary_held {
            FrameMotion { dx, dy, scroll }
        } else {
            FrameMotion { dx: 0, dy: 0, scroll }
        }
    }

    /// Horizontal pointer motion that counts for this frame, in pixels.
    pub fn horizontal(&self) -> (v: i128)
        ensures
            v == self.dx(),
    {
        self.dx
    }

    /// Vertical pointer motion that counts for this frame, in pixels.
    pub fn vertical(&self) -> (v: i128)
        ensures
            v == self.dy(),
    {
        self.dy
    }

    /// Scroll of the wheel in this frame, in scroll units.
    pub fn wheel(&self) -> (v: i128)
        ensures
            v == self.scroll(),
    {
        self.scroll
    }
}

/// The turn that one frame asks of the camera, in angle units.
///
/// With `Ry(yaw)` the rotation about the world's Y axis and `Rx(pitch)` the
/// rotation about the camera's own X axis as it is before the turn, the
/// camera's offset from the focus becomes `Ry(yaw) * Rx(pitch) * offset`.
/// Afterwards the camera looks at the focus again.
#[derive(Clone, Copy, Debug, PartialEq, Eq, Structural)]
pub struct OrbitRotation {
    pub yaw: i128,
    pub pitch: i128,
}

/// What the camera has to do after one frame: first the turn, then the
/// zoom. After either, the camera is placed anew at the position that
/// [`OrbitState::camera_position`] gives for the orientation it then has,
/// so that its distance from the focus never drifts from the radius.
#[derive(Clone, Copy, Debug, PartialEq, Eq, Structural)]
pub struct OrbitCommand {
    /// The turn to make, if the pointer moved.
    pub rotation: Option<OrbitRotation>,
    /// The new radius, if the wheel turned.
    pub zoom: Option<u32>,
}

impl OrbitCommand {
    /// Whether the camera has to be placed anew.
    pub fn moves_camera(&self) -> (b: bool)
        ensures
            b == (self.rotation is Some || self.zoom is Some),
    {
        self.rotation.is_some() || self.zoom.is_some()
    }
}

/// The radius within its limits.
pub open spec fn clamp_radius(radius: int) -> int {
    if radius < MIN_RADIUS {
        MIN_RADIUS as int
    } else if radius > MAX_RADIUS {
        MAX_RADIUS as int
    } else {
        radius
    }
}

/// The radius after a scroll, before it is clamped: the radius times
/// `1 - scroll * sensitivity`, rounded down to a whole length unit.
pub open spec fn scaled_radius(radius: int, scroll: int, zoom_sensitivity: int) -> int {
    (radius * (ZOOM_ONE - scroll * zoom_sensitivity)) / (ZOOM_ONE as int)
}

/// The camera's position at distance `radius` from `focus`, looking along
/// `forward`: `focus - forward * radius`, in position units.
pub open spec fn orbit_position(focus: WorldPoint, forward: Direction, radius: int) -> Offset {
    Offset {
        x: focus.x * BASIS_ONE - forward.x * radius,
        y: focus.y * BASIS_ONE - forward.y * radius,
        z: focus.z * BASIS_ONE - forward.z * radius,
    }
}

/// The orbit camera's state as a plain value.
pub struct OrbitModel {
    /// The point the camera looks at.
    pub focus: WorldPoint,
    /// The camera's distance from the focus.
    pub radius: int,
    /// Angle units per pixel of pointer motion.
    pub rotate_sensitivity: int,
    /// Thousandths of the radius per notch of scroll.
    pub zoom_sensitivity: int,
}

impl OrbitModel {
    /// The radius is within its limits.
    pub open spec fn wf(self) -> bool {
        MIN_RADIUS <= self.radius <= MAX_RADIUS
    }

    /// The turn for a frame's pointer motion: none if the pointer did not
    /// move, else against the motion, scaled by the sensitivity.
    pub open spec fn rotation(self, dx: int, dy: int) -> Option<(int, int)> {
        if dx == 0 && dy == 0 {
            None
        } else {
            Some((-dx * self.rotate_sensitivity, -dy * self.rotate_sensitivity))
        }
    }

    /// The radius after a frame's scroll.
    pub open spec fn zoomed_radius(self, scroll: int) -> int {
        if scroll == 0 {
            self.radius
        } else {
            clamp_radius(scaled_radius(self.radius, scroll, self.zoom_sensitivity))
        }
    }

    /// The state after a frame's scroll. Pointer motion does not change the
    /// state: the turn it asks for is made by the camera.
    pub open spec fn after(self, scroll: int) -> OrbitModel {
        OrbitModel {
            focus: self.focus,
            radius: self.zoomed_radius(scroll),
            rotate_sensitivity: self.rotate_sensitivity,
            zoom_sensitivity: self.zoom_sensitivity,
        }
    }
}

/// The state of an orbit camera.
#[derive(Clone, Copy, Debug, PartialEq, Eq)]
pub struct OrbitState {
    focus: WorldPoint,
    radius: u32,
    rotate_sensitivity: u16,
    zoom_sensitivity: u16,
}

impl View for OrbitState {
    type V = OrbitModel;

    closed spec fn view(&self) -> OrbitModel {
        OrbitModel {
            focus: self.focus,
            radius: self.radius as int,
            rotate_sensitivity: self.rotate_sensitivity as int,
            zoom_sensitivity: self.zoom_sensitivity as int,
        }
    }
}

impl OrbitState {
    #[verifier::type_invariant]
    spec fn well_formed(self) -> bool {
        self@.wf()
    }

    /// A camera that looks at `focus` from as near to `radius` as the
    /// limits allow.
    pub fn new(focus: WorldPoint, radius: u32, rotate_sensitivity: u16, zoom_sensitivity: u16) -> (s:
        OrbitState)
        ensures
            s@.focus == focus,
            s@.radius == clamp_radius(radius as int),
            s@.rotate_sensitivity == rotate_sensitivity,
            s@.zoom_sensitivity == zoom_sensitivity,
            s@.wf(),
    {
        let radius: u32 = if radius < MIN_RADIUS {
            MIN_RADIUS
        } else if radius > MAX_RADIUS {
            MAX_RADIUS
        } else {
            radius
        };
        OrbitState { focus, radius, rotate_sensitivity, zoom_sensitivity }
    }

    /// The point the camera looks at.
    pub fn focus(&self) -> (p: WorldPoint)
        ensures
            p == self@.focus,
    {
        self.focus
    }

    /// The camera's distance from its focus, always within the limits.
    pub fn radius(&self) -> (r: u32)
        ensures
            r == self@.radius,
            MIN_RADIUS <= r <= MAX_RADIUS,
    {
        proof {
            use_type_invariant(self);
        }
        self.radius
    }

    /// The turn that a frame's pointer motion asks for.
    pub fn rotation(&self, motion: &FrameMotion) -> (r: Option<OrbitRotation>)
        ensures
            r is Some <==> self@.rotation(motion.dx(), motion.dy()) is Some,
            r matches Some(turn) ==> self@.rotation(motion.dx(), motion.dy()) == Some(
                (turn.yaw as int, turn.pitch as int),
            ),
    {
        proof {
            use_type_invariant(motion);
        }
        if motion.dx == 0 && motion.dy == 0 {
            None
        } else {
            let sensitivity: i128 = self.rotate_sensitivity as i128;
            proof {
                lemma_product_bounded(
                    motion.dx as int,
                    sensitivity as int,
                    ACCUMULATION_LIMIT as int,
                    0xffff,
                );
                lemma_product_bounded(
                    motion.dy as int,
                    sensitivity as int,
                    ACCUMULATION_LIMIT as int,
                    0xffff,
                );
                assert(ACCUMULATION_LIMIT * 0xffff < i128::MAX) by (nonlinear_arith);
                assert((-motion.dx) * sensitivity == -(motion.dx * sensitivity))
                    by (nonlinear_arith);
                assert((-motion.dy) * sensitivity == -(motion.dy * sensitivity))
                    by (nonlinear_arith);
            }
            Some(OrbitRotation { yaw: -(motion.dx * sensitivity), pitch: -(motion.dy * sensitivity) })
        }
    }

    /// Applies a frame's scroll to the radius and returns the new radius
    /// if the wheel turned.
    pub fn zoom(&mut self, motion: &FrameMotion) -> (r: Option<u32>)
        ensures
            final(self)@ == old(self)@.after(motion.scroll()),
            final(self)@.wf(),
            r == if motion.scroll() == 0 {
                None
            } else {
                Some(final(self)@.radius as u32)
            },
    {
        proof {
            use_type_invariant(&*self);
            use_type_invariant(motion);
        }
        if motion.scroll == 0 {
            return None;
        }
        let sensitivity: i128 = self.zoom_sensitivity as i128;
        proof {
            lemma_product_bounded(
                motion.scroll as int,
                sensitivity as int,
                ACCUMULATION_LIMIT as int,
                0xffff,
            );
        }
        let factor: i128 = ZOOM_ONE - motion.scroll * sensitivity;
        proof {
            lemma_product_bounded(
                self.radius as int,
                factor as int,
                MAX_RADIUS as int,
                ACCUMULATION_LIMIT * 0xffff + ZOOM_ONE,
            );
            assert(MAX_RADIUS * (ACCUMULATION_LIMIT * 0xffff + ZOOM_ONE) < i128::MAX)
                by (nonlinear_arith);
        }
        let product: i128 = self.radius as i128 * factor;
        let low: i128 = MIN_RADIUS as i128 * ZOOM_ONE;
        let high: i128 = MAX_RADIUS as i128 * ZOOM_ONE;
        let radius: u32 = if product < low {
            MIN_RADIUS
        } else if product >= high {
            MAX_RADIUS
        } else {
            let quotient: u128 = product as u128 / 1_000_000u128;
            quotient as u32
        };
        *self = OrbitState {
            focus: self.focus,
            radius,
            rotate_sensitivity: self.rotate_sensitivity,
            zoom_sensitivity: self.zoom_sensitivity,
        };
        Some(radius)
    }

    /// Runs the camera's frame: the turn first, then the zoom.
    pub fn update(&mut self, motion: &FrameMotion) -> (cmd: OrbitCommand)
        ensures
            final(self)@ == old(self)@.after(motion.scroll()),
            final(self)@.wf(),
            cmd.rotation is Some <==> old(self)@.rotation(motion.dx(), motion.dy()) is Some,
            cmd.rotation matches Some(turn) ==> old(self)@.rotation(motion.dx(), motion.dy())
                == Some((turn.yaw as int, turn.pitch as int)),
            cmd.zoom == if motion.scroll() == 0 {
                None
            } else {
                Some(final(self)@.radius as u32)
            },
    {
        let rotation = self.rotation(motion);
        let zoom = self.zoom(motion);
        OrbitCommand { rotation, zoom }
    }

    /// Where the camera stands when it looks along `basis.forward()`:
    /// at `focus - forward * radius`, computed afresh from the focus.
    pub fn camera_position(&self, basis: &CameraBasis) -> (p: CameraPosition)
        ensures
            (Offset { x: p.x as int, y: p.y as int, z: p.z as int }) == orbit_position(
                self@.focus,
                basis.forward(),
                self@.radius,
            ),
    {
        let forward = basis.forward_direction();
        proof {
            use_type_invariant(self);
            lemma_unit_is_bounded(forward);
        }
        let x: i64 = axis_position(self.focus.x, forward.x, self.radius);
        let y: i64 = axis_position(self.focus.y, forward.y, self.radius);
        let z: i64 = axis_position(self.focus.z, forward.z, self.radius);
        CameraPosition { x, y, z }
    }
}

fn axis_position(focus: i32, forward: i32, radius: u32) -> (p: i64)
    requires
        -COMPONENT_LIMIT <= forward <= COMPONENT_LIMIT,
        radius <= MAX_RADIUS,
    ensures
        p == focus * BASIS_ONE - forward * radius,
{
    proof {
        lemma_product_bounded(focus as int, BASIS_ONE as int, 0x8000_0000, 10_000_000);
        lemma_product_bounded(forward as int, radius as int, 20_000_000, 20_000);
    }
    focus as i64 * BASIS_ONE as i64 - forward as i64 * radius as i64
}

} // verus!
