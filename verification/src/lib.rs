//! Interactive manipulation core of a 3D scene editor.
//!
//! The crate decides, frame by frame, what a pointer gesture means: whether
//! the overlay or the viewport owns the pointer, which object a click
//! selects, how a drag turns into a change of the selected object's
//! transform, and how an orbit camera follows mouse input.
//!
//! The host owns the window, the scene and the camera. Each frame it hands
//! the core what it observed (pointer state, the result of a ray cast, the
//! camera's basis) and carries out what the core decides (a change to a
//! transform, a turn of the camera).
//!
//! All quantities are exact integers in fixed-point units, so that every
//! rule is stated and proved over mathematical integers. The host converts
//! to and from its own number types at the boundary.

pub mod arith;
pub mod context;
pub mod drag;
pub mod handle;
pub mod laws;
pub mod manipulator;
pub mod orbit;
pub mod picking;
pub mod pointer;
pub mod tool;

pub use context::{ContextModel, FrameOutcome, InteractionContext};
pub use drag::DragMotion;
pub use handle::ObjectHandle;
pub use manipulator::{
    transform_delta, CameraBasis, Direction, TransformDelta, ANGLE_ONE, BASIS_ONE,
    BASIS_TOLERANCE, SCALE_ONE, TRANSLATION_ONE,
};
pub use orbit::{
    CameraPosition, FrameMotion, OrbitCommand, OrbitEvent, OrbitModel, OrbitRotation, OrbitState,
    WorldPoint, LENGTH_ONE, MAX_RADIUS, MIN_RADIUS, ORBIT_ANGLE_ONE, POSITION_ONE, SCROLL_ONE,
    ZOOM_ONE,
};
pub use picking::{GeometryError, PickOutcome};
pub use pointer::{PointerFrame, ScreenDelta, ScreenPoint, SPAN};
pub use tool::Tool;
