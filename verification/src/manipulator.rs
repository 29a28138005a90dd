//! From a pointer displacement to a change of the selected object's
//! transform, one rule per tool.
//!
//! Units. A direction component is a multiple of `1 / BASIS_ONE`. A
//! translation component is a multiple of `1 / TRANSLATION_ONE` scene units,
//! an angle a multiple of `1 / ANGLE_ONE` radians, and a scale factor a
//! multiple of `1 / SCALE_ONE`. With these units each pixel of drag moves by
//! 0.01 scene units, turns by 0.01 radians, or scales by 0.01, and every
//! rule is exact.

use vstd::prelude::*;
use crate::arith::lemma_product_bounded;
use crate::pointer::{ScreenDelta, SPAN};
use crate::tool::Tool;

verus! {

/// The fixed-point representation of the length 1 of a direction.
pub const BASIS_ONE: i32 = 10_000_000;

/// How far the squared length of a basis vector may differ from
/// `BASIS_ONE * BASIS_ONE`, and how far the dot product of two basis
/// vectors may differ from zero: one part in 100 000.
pub const BASIS_TOLERANCE: i64 = 1_000_000_000;

/// Translation units per scene unit: `BASIS_ONE` times 100 pixels per unit.
pub const TRANSLATION_ONE: i64 = 1_000_000_000;

/// Angle units per radian: one pixel of drag turns by one unit.
pub const ANGLE_ONE: i64 = 100;

/// Scale units per factor 1: one pixel of drag scales by one unit.
pub const SCALE_ONE: i64 = 100;

/// A vector of the scene in multiples of `1 / BASIS_ONE`.
#[derive(Clone, Copy, Debug, PartialEq, Eq, Hash, Structural)]
pub struct Direction {
    pub x: i32,
    pub y: i32,
    pub z: i32,
}

/// A vector of exact integers, in whatever unit its context names.
pub struct Offset {
    pub x: int,
    pub y: int,
    pub z: int,
}

impl Offset {
    /// The sum of two vectors.
    pub open spec fn plus(self, other: Offset) -> Offset {
        Offset { x: self.x + other.x, y: self.y + other.y, z: self.z + other.z }
    }

    /// The zero vector.
    pub open spec fn zero() -> Offset {
        Offset { x: 0, y: 0, z: 0 }
    }
}

/// The dot product of two vectors, in multiples of `1 / BASIS_ONE` squared.
pub open spec fn dot(a: Direction, b: Direction) -> int {
    a.x * b.x + a.y * b.y + a.z * b.z
}

/// `d` has length 1 within the tolerance.
pub open spec fn is_unit(d: Direction) -> bool {
    -BASIS_TOLERANCE <= dot(d, d) - BASIS_ONE * BASIS_ONE <= BASIS_TOLERANCE
}

/// `forward` and `right` are unit vectors at right angles, within the
/// tolerance.
pub open spec fn orthonormal(forward: Direction, right: Direction) -> bool {
    &&& is_unit(forward)
    &&& is_unit(right)
    &&& -BASIS_TOLERANCE <= dot(forward, right) <= BASIS_TOLERANCE
}

/// The largest magnitude that a component of a unit vector can have, with
/// room to spare: twice the unit.
pub const COMPONENT_LIMIT: i32 = 20_000_000;

/// No component of `d` exceeds the limit.
pub open spec fn bounded(d: Direction) -> bool {
    &&& -COMPONENT_LIMIT <= d.x <= COMPONENT_LIMIT
    &&& -COMPONENT_LIMIT <= d.y <= COMPONENT_LIMIT
    &&& -COMPONENT_LIMIT <= d.z <= COMPONENT_LIMIT
}

/// A unit vector is bounded: a component beyond the limit alone would make
/// the vector too long.
pub proof fn lemma_unit_is_bounded(d: Direction)
    requires
        is_unit(d),
    ensures
        bounded(d),
{
    let x = d.x as int;
    let y = d.y as int;
    let z = d.z as int;
    assert(x * x >= 0 && y * y >= 0 && z * z >= 0) by (nonlinear_arith);
    assert(x > 20_000_000 || x < -20_000_000 ==> x * x > 400_000_000_000_000)
        by (nonlinear_arith);
    assert(y > 20_000_000 || y < -20_000_000 ==> y * y > 400_000_000_000_000)
        by (nonlinear_arith);
    assert(z > 20_000_000 || z < -20_000_000 ==> z * z > 400_000_000_000_000)
        by (nonlinear_arith);
}

fn is_bounded(d: &Direction) -> (b: bool)
    ensures
        b == bounded(*d),
{
    -COMPONENT_LIMIT <= d.x && d.x <= COMPONENT_LIMIT && -COMPONENT_LIMIT <= d.y && d.y
        <= COMPONENT_LIMIT && -COMPONENT_LIMIT <= d.z && d.z <= COMPONENT_LIMIT
}

fn dot_of(a: &Direction, b: &Direction) -> (r: i64)
    requires
        bounded(*a),
        bounded(*b),
    ensures
        r == dot(*a, *b),
        -1_200_000_000_000_000 <= r <= 1_200_000_000_000_000,
{
    let ax: i64 = a.x as i64;
    let ay: i64 = a.y as i64;
    let az: i64 = a.z as i64;
    let bx: i64 = b.x as i64;
    let by: i64 = b.y as i64;
    let bz: i64 = b.z as i64;
    proof {
        lemma_product_bounded(ax as int, bx as int, 20_000_000, 20_000_000);
        lemma_product_bounded(ay as int, by as int, 20_000_000, 20_000_000);
        lemma_product_bounded(az as int, bz as int, 20_000_000, 20_000_000);
    }
    ax * bx + ay * by + az * bz
}

/// The camera's viewing direction and its right-hand direction, as the
/// rendering side reports them for the current frame.
#[derive(Clone, Copy, Debug, PartialEq, Eq)]
pub struct CameraBasis {
    forward: Direction,
    right: Direction,
}

impl CameraBasis {
    #[verifier::type_invariant]
    spec fn well_formed(self) -> bool {
        orthonormal(self.forward, self.right)
    }

    /// The direction the camera looks along.
    pub closed spec fn forward(self) -> Direction {
        self.forward
    }

    /// The direction to the right of the view.
    pub closed spec fn right(self) -> Direction {
        self.right
    }

    /// Accepts a pair of directions as a camera basis exactly when they are
    /// orthonormal within the tolerance.
    pub fn new(forward: Direction, right: Direction) -> (r: Option<CameraBasis>)
        ensures
            r is Some <==> orthonormal(forward, right),
            r matches Some(b) ==> b.forward() == forward && b.right() == right,
    {
        if !is_bounded(&forward) || !is_bounded(&right) {
            proof {
                if is_unit(forward) {
                    lemma_unit_is_bounded(forward);
                }
                if is_unit(right) {
                    lemma_unit_is_bounded(right);
                }
            }
            return None;
        }
        let one: i64 = 100_000_000_000_000;
        assert(one == BASIS_ONE * BASIS_ONE) by (nonlinear_arith)
            requires
                one == 100_000_000_000_000,
        ;
        let forward_excess: i64 = dot_of(&forward, &forward) - one;
        let right_excess: i64 = dot_of(&right, &right) - one;
        let skew: i64 = dot_of(&forward, &right);
        if -BASIS_TOLERANCE <= forward_excess && forward_excess <= BASIS_TOLERANCE
            && -BASIS_TOLERANCE <= right_excess && right_excess <= BASIS_TOLERANCE
            && -BASIS_TOLERANCE <= skew && skew <= BASIS_TOLERANCE {
            Some(CameraBasis { forward, right })
        } else {
            None
        }
    }

    /// The direction the camera looks along.
    pub fn forward_direction(&self) -> (d: Direction)
        ensures
            d == self.forward(),
            is_unit(d),
    {
        proof {
            use_type_invariant(self);
        }
        self.forward
    }

    /// The direction to the right of the view.
    pub fn right_direction(&self) -> (d: Direction)
        ensures
            d == self.right(),
            is_unit(d),
    {
        proof {
            use_type_invariant(self);
        }
        self.right
    }
}

/// A change to apply to the selected object's transform.
#[derive(Clone, Copy, Debug, PartialEq, Eq, Structural)]
pub enum TransformDelta {
    /// Add this vector to the translation; components in multiples of
    /// `1 / TRANSLATION_ONE` scene units.
    Translate { x: i64, y: i64, z: i64 },
    /// Multiply the orientation from the right by the rotation about the
    /// local X axis followed by the rotation about the local Y axis; angles
    /// in multiples of `1 / ANGLE_ONE` radians.
    Rotate { about_x: i64, about_y: i64 },
    /// Multiply all three scale components by `numerator / SCALE_ONE`.
    Scale { numerator: i64 },
}

impl TransformDelta {
    /// The vector that a translation adds; zero for the other changes.
    pub open spec fn offset(self) -> Offset {
        match self {
            TransformDelta::Translate { x, y, z } => Offset {
                x: x as int,
                y: y as int,
                z: z as int,
            },
            _ => Offset::zero(),
        }
    }
}

/// The translation of a drag by `(dx, dy)` pixels: `dx` along the camera's
/// right, `dy` against the camera's forward direction, 0.01 scene units per
/// pixel. In multiples of `1 / TRANSLATION_ONE`.
pub open spec fn translation(basis: CameraBasis, dx: int, dy: int) -> Offset {
    Offset {
        x: basis.right().x * dx - basis.forward().x * dy,
        y: basis.right().y * dx - basis.forward().y * dy,
        z: basis.right().z * dx - basis.forward().z * dy,
    }
}

/// The change that one frame of dragging makes, by tool. The selection tool
/// changes nothing, and the move tool needs a camera basis.
pub open spec fn delta_for(tool: Tool, dx: int, dy: int, basis: Option<CameraBasis>) -> Option<
    TransformDelta,
> {
    match tool {
        Tool::Select => None,
        Tool::Move => match basis {
            None => None,
            Some(b) => Some(
                TransformDelta::Translate {
                    x: translation(b, dx, dy).x as i64,
                    y: translation(b, dx, dy).y as i64,
                    z: translation(b, dx, dy).z as i64,
                },
            ),
        },
        Tool::Rotate => Some(TransformDelta::Rotate { about_x: dy as i64, about_y: dx as i64 }),
        Tool::Scale => Some(TransformDelta::Scale { numerator: (SCALE_ONE + dx) as i64 }),
    }
}

/// Within the span of the screen no component of a translation leaves the
/// range of `i64`, so `delta_for` loses nothing.
pub proof fn lemma_translation_fits(basis: CameraBasis, dx: int, dy: int)
    requires
        orthonormal(basis.forward(), basis.right()),
        -SPAN <= dx <= SPAN,
        -SPAN <= dy <= SPAN,
    ensures
        i64::MIN <= translation(basis, dx, dy).x <= i64::MAX,
        i64::MIN <= translation(basis, dx, dy).y <= i64::MAX,
        i64::MIN <= translation(basis, dx, dy).z <= i64::MAX,
{
    let f = basis.forward();
    let r = basis.right();
    lemma_unit_is_bounded(f);
    lemma_unit_is_bounded(r);
    lemma_product_bounded(r.x as int, dx, 20_000_000, 0xffff_ffff);
    lemma_product_bounded(r.y as int, dx, 20_000_000, 0xffff_ffff);
    lemma_product_bounded(r.z as int, dx, 20_000_000, 0xffff_ffff);
    lemma_product_bounded(f.x as int, dy, 20_000_000, 0xffff_ffff);
    lemma_product_bounded(f.y as int, dy, 20_000_000, 0xffff_ffff);
    lemma_product_bounded(f.z as int, dy, 20_000_000, 0xffff_ffff);
}

fn axis_translation(right: i32, forward: i32, dx: i64, dy: i64) -> (t: i64)
    requires
        -COMPONENT_LIMIT <= right <= COMPONENT_LIMIT,
        -COMPONENT_LIMIT <= forward <= COMPONENT_LIMIT,
        -SPAN <= dx <= SPAN,
        -SPAN <= dy <= SPAN,
    ensures
        t == right * dx - forward * dy,
{
    proof {
        lemma_product_bounded(right as int, dx as int, 20_000_000, 0xffff_ffff);
        lemma_product_bounded(forward as int, dy as int, 20_000_000, 0xffff_ffff);
    }
    (right as i64) * dx - (forward as i64) * dy
}

/// Turns one frame of dragging into the change it makes to the selected
/// object's transform: the dispatch from tool to rule.
pub fn transform_delta(tool: Tool, delta: ScreenDelta, basis: Option<CameraBasis>) -> (r: Option<
    TransformDelta,
>)
    ensures
        r == delta_for(tool, delta.dx(), delta.dy(), basis),
        (tool == Tool::Move && basis is Some) ==> r is Some && r->0 is Translate && r->0.offset()
            == translation(basis->0, delta.dx(), delta.dy()),
{
    let dx: i64 = delta.horizontal();
    let dy: i64 = delta.vertical();
    match tool {
        Tool::Select => None,
        Tool::Move => match basis {
            None => None,
            Some(b) => {
                let f = b.forward_direction();
                let r = b.right_direction();
                proof {
                    lemma_unit_is_bounded(f);
                    lemma_unit_is_bounded(r);
                }
                let x: i64 = axis_translation(r.x, f.x, dx, dy);
                let y: i64 = axis_translation(r.y, f.y, dx, dy);
                let z: i64 = axis_translation(r.z, f.z, dx, dy);
                Some(TransformDelta::Translate { x, y, z })
            },
        },
        Tool::Rotate => Some(TransformDelta::Rotate { about_x: dy, about_y: dx }),
        Tool::Scale => Some(TransformDelta::Scale { numerator: SCALE_ONE + dx }),
    }
}

/// Translation is additive in the drag: moving by two displacements in
/// turn is moving by their sum, as long as the camera does not turn.
pub proof fn lemma_translation_additive(basis: CameraBasis, dx1: int, dy1: int, dx2: int, dy2: int)
    ensures
        translation(basis, dx1 + dx2, dy1 + dy2) == translation(basis, dx1, dy1).plus(
            translation(basis, dx2, dy2),
        ),
        translation(basis, 0, 0) == Offset::zero(),
{
    let f = basis.forward();
    let r = basis.right();
    assert(r.x * (dx1 + dx2) - f.x * (dy1 + dy2) == (r.x * dx1 - f.x * dy1) + (r.x * dx2 - f.x
        * dy2)) by (nonlinear_arith);
    assert(r.y * (dx1 + dx2) - f.y * (dy1 + dy2) == (r.y * dx1 - f.y * dy1) + (r.y * dx2 - f.y
        * dy2)) by (nonlinear_arith);
    assert(r.z * (dx1 + dx2) - f.z * (dy1 + dy2) == (r.z * dx1 - f.z * dy1) + (r.z * dx2 - f.z
        * dy2)) by (nonlinear_arith);
}

} // verus!
