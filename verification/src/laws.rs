//! What holds of the interaction rules whatever the input: theorems about
//! the functions of [`ContextModel`] and [`OrbitModel`], which the
//! executable types follow step for step.

use vstd::prelude::*;
use crate::context::ContextModel;
use crate::drag::DragMotion;
use crate::handle::ObjectHandle;
use crate::manipulator::{
    dot, lemma_translation_additive, translation, CameraBasis, Direction, Offset, BASIS_ONE,
};
use crate::orbit::{orbit_position, OrbitModel, WorldPoint, MAX_RADIUS, MIN_RADIUS};
use crate::picking::{GeometryError, PickOutcome};
use crate::pointer::{PointerFrame, ScreenPoint};
use crate::tool::Tool;

verus! {

/// Every step keeps the context well formed: a drag session never outlives
/// its tool or its selection.
pub proof fn lemma_steps_preserve_wf(
    ctx: ContextModel,
    frame: PointerFrame,
    cast: Result<Option<ObjectHandle>, GeometryError>,
    tool: Tool,
    resolves: bool,
)
    requires
        ctx.wf(),
    ensures
        ContextModel::initial().wf(),
        ctx.with_tool(tool).wf(),
        ctx.revalidated(resolves).wf(),
        ctx.after_pick(frame, cast).wf(),
        ctx.after_drag(frame).wf(),
        ctx.after_frame(frame, cast).wf(),
{
}

/// The overlay takes precedence. In a frame in which the pointer is over
/// the overlay, or in which the overlay handled a click, no ray is asked
/// for, the selection and the tool stay as they are, and no movement is
/// reported, whatever the tool and whether or not a drag is active. The
/// drag session is untouched too, unless the button was released.
pub proof fn lemma_overlay_takes_precedence(
    ctx: ContextModel,
    frame: PointerFrame,
    cast: Result<Option<ObjectHandle>, GeometryError>,
)
    requires
        frame.over_overlay || frame.overlay_clicked,
    ensures
        ctx.pick_point(frame) is None,
        ctx.pick_outcome(frame, cast) == PickOutcome::Ignored,
        ctx.after_frame(frame, cast).selection == ctx.selection,
        ctx.after_frame(frame, cast).tool == ctx.tool,
        ctx.frame_motion(frame, cast) is None,
        !frame.primary_released ==> ctx.after_frame(frame, cast) == ctx,
{
}

/// A pick that hits replaces the selection: afterwards exactly the object
/// hit is selected, whatever was selected before. A pick that misses
/// leaves nothing selected.
pub proof fn lemma_pick_replaces_selection(
    ctx: ContextModel,
    frame: PointerFrame,
    hit: Option<ObjectHandle>,
)
    requires
        ctx.wf(),
        ctx.pick_point(frame) is Some,
    ensures
        ctx.after_frame(frame, Ok(hit)).selection == hit,
        ctx.after_pick(frame, Ok(hit)).selection == hit,
{
}

/// Only a pick that is due and whose ray could be cast changes the
/// selection; the drag step never does.
pub proof fn lemma_selection_changes_only_by_pick(
    ctx: ContextModel,
    frame: PointerFrame,
    cast: Result<Option<ObjectHandle>, GeometryError>,
)
    ensures
        ctx.after_drag(frame).selection == ctx.selection,
        ctx.after_frame(frame, cast).selection != ctx.selection ==> ctx.pick_point(frame) is Some
            && cast is Ok,
        cast is Err ==> ctx.after_frame(frame, cast).selection == ctx.selection,
{
}

/// A frame in which the primary button goes down at `at`, with the pointer
/// free.
pub open spec fn press_frame(at: ScreenPoint) -> PointerFrame {
    PointerFrame {
        position: Some(at),
        primary_pressed: true,
        primary_released: false,
        over_overlay: false,
        overlay_clicked: false,
    }
}

/// A frame in which the primary button comes up at `at`, with the pointer
/// free.
pub open spec fn release_frame(at: ScreenPoint) -> PointerFrame {
    PointerFrame {
        position: Some(at),
        primary_pressed: false,
        primary_released: true,
        over_overlay: false,
        overlay_clicked: false,
    }
}

/// A click with the selection tool selects once. The press asks for one
/// ray and the selection becomes what that ray hit; the release at the
/// same point asks for none and changes nothing, whatever a ray would have
/// reported then. Neither frame reports a movement or leaves a drag
/// session behind.
pub proof fn lemma_click_selects_once(
    ctx: ContextModel,
    at: ScreenPoint,
    hit: Option<ObjectHandle>,
    later: Result<Option<ObjectHandle>, GeometryError>,
)
    requires
        ctx.wf(),
        ctx.tool == Tool::Select,
    ensures
        ({
            let pressed = ctx.after_frame(press_frame(at), Ok(hit));
            let released = pressed.after_frame(release_frame(at), later);
            &&& ctx.pick_point(press_frame(at)) == Some(at)
            &&& pressed.selection == hit
            &&& pressed.pick_point(release_frame(at)) is None
            &&& released.selection == hit
            &&& released.anchor is None
            &&& ctx.frame_motion(press_frame(at), Ok(hit)) is None
            &&& pressed.frame_motion(release_frame(at), later) is None
        }),
{
}

/// A change of tool discards the drag session on the spot. Whatever the
/// pointer has moved since the session last looked is never applied: the
/// frame that follows reports no movement, whatever it holds.
pub proof fn lemma_tool_switch_cancels_drag(
    ctx: ContextModel,
    tool: Tool,
    frame: PointerFrame,
    cast: Result<Option<ObjectHandle>, GeometryError>,
)
    requires
        ctx.wf(),
        tool != ctx.tool,
    ensures
        ctx.with_tool(tool).anchor is None,
        ctx.with_tool(tool).tool == tool,
        ctx.with_tool(tool).selection == ctx.selection,
        ctx.with_tool(tool).drag_motion(frame) is None,
        ctx.with_tool(tool).frame_motion(frame, cast) is None,
{
}

/// Losing the selection ends the drag session, and so does a release.
pub proof fn lemma_session_ends(ctx: ContextModel, frame: PointerFrame)
    requires
        ctx.wf(),
    ensures
        ctx.selection is Some ==> ctx.revalidated(false).anchor is None,
        ctx.selection is Some ==> ctx.revalidated(false).selection is None,
        ctx.revalidated(true) == ctx,
        frame.primary_released ==> ctx.after_drag(frame).anchor is None,
{
}

/// The state after the drag steps of several frames in turn.
pub open spec fn after_frames(ctx: ContextModel, frames: Seq<PointerFrame>) -> ContextModel
    decreases frames.len(),
{
    if frames.len() == 0 {
        ctx
    } else {
        after_frames(ctx, frames.drop_last()).after_drag(frames.last())
    }
}

/// The movements that the drag steps of several frames report, frame by
/// frame.
pub open spec fn motions_of(ctx: ContextModel, frames: Seq<PointerFrame>) -> Seq<
    Option<DragMotion>,
>
    decreases frames.len(),
{
    if frames.len() == 0 {
        Seq::empty()
    } else {
        motions_of(ctx, frames.drop_last()).push(
            after_frames(ctx, frames.drop_last()).drag_motion(frames.last()),
        )
    }
}

/// The horizontal movement of one frame; zero if none was reported.
pub open spec fn motion_dx(motion: Option<DragMotion>) -> int {
    match motion {
        Some(m) => m.dx(),
        None => 0,
    }
}

/// The vertical movement of one frame; zero if none was reported.
pub open spec fn motion_dy(motion: Option<DragMotion>) -> int {
    match motion {
        Some(m) => m.dy(),
        None => 0,
    }
}

/// The sum of the horizontal movements.
pub open spec fn sum_dx(motions: Seq<Option<DragMotion>>) -> int
    decreases motions.len(),
{
    if motions.len() == 0 {
        0
    } else {
        sum_dx(motions.drop_last()) + motion_dx(motions.last())
    }
}

/// The sum of the vertical movements.
pub open spec fn sum_dy(motions: Seq<Option<DragMotion>>) -> int
    decreases motions.len(),
{
    if motions.len() == 0 {
        0
    } else {
        sum_dy(motions.drop_last()) + motion_dy(motions.last())
    }
}

/// The sum of the translations that the movements make one by one under
/// the move tool, with the camera at rest.
pub open spec fn sum_translation(basis: CameraBasis, motions: Seq<Option<DragMotion>>) -> Offset
    decreases motions.len(),
{
    if motions.len() == 0 {
        Offset::zero()
    } else {
        sum_translation(basis, motions.drop_last()).plus(
            translation(basis, motion_dx(motions.last()), motion_dy(motions.last())),
        )
    }
}

/// No frame of `frames` holds a press or a release of the primary button.
pub open spec fn without_edges(frames: Seq<PointerFrame>) -> bool {
    forall|i: int|
        0 <= i < frames.len() ==> !(#[trigger] frames[i]).primary_pressed
            && !frames[i].primary_released
}

/// Dragging is incremental. While the button stays down, whatever else
/// the frames hold, the session stays active on the same object with the
/// same tool, and each movement that a frame reports starts where the
/// session's anchor was before that frame and ends at the pointer, where
/// the anchor then is: a movement is never measured from where the drag
/// began. So the movements add up to the displacement of the anchor, and
/// under the move tool the translations applied frame by frame add up to
/// the translation of that displacement.
pub proof fn lemma_drag_is_incremental(
    ctx: ContextModel,
    start: ScreenPoint,
    frames: Seq<PointerFrame>,
    basis: CameraBasis,
)
    requires
        ctx.wf(),
        ctx.anchor == Some(start),
        without_edges(frames),
    ensures
        after_frames(ctx, frames).anchor is Some,
        after_frames(ctx, frames).selection == ctx.selection,
        after_frames(ctx, frames).tool == ctx.tool,
        motions_of(ctx, frames).len() == frames.len(),
        forall|i: int|
            0 <= i < frames.len() ==> (#[trigger] motions_of(ctx, frames)[i] matches Some(m)
                ==> {
                &&& m.tool == ctx.tool
                &&& Some(m.target) == ctx.selection
                &&& Some(m.from) == after_frames(ctx, frames.take(i)).anchor
                &&& Some(m.to) == frames[i].position
                &&& Some(m.to) == after_frames(ctx, frames.take(i + 1)).anchor
                &&& m.from != m.to
            }),
        sum_dx(motions_of(ctx, frames)) == after_frames(ctx, frames).anchor->0.x - start.x,
        sum_dy(motions_of(ctx, frames)) == after_frames(ctx, frames).anchor->0.y - start.y,
        sum_translation(basis, motions_of(ctx, frames)) == translation(
            basis,
            after_frames(ctx, frames).anchor->0.x - start.x,
            after_frames(ctx, frames).anchor->0.y - start.y,
        ),
    decreases frames.len(),
{
    if frames.len() == 0 {
        lemma_translation_additive(basis, 0, 0, 0, 0);
    } else {
        let before = frames.drop_last();
        let motions = motions_of(ctx, frames);
        assert(without_edges(before)) by {
            assert forall|i: int| 0 <= i < before.len() implies !(#[trigger] before[i]).primary_pressed
                && !before[i].primary_released by {
                assert(before[i] == frames[i]);
            }
        }
        lemma_drag_is_incremental(ctx, start, before, basis);
        let reached = after_frames(ctx, before);
        let last = motions.last();
        assert(!frames.last().primary_pressed && !frames.last().primary_released) by {
            assert(frames.last() == frames[frames.len() - 1]);
        }
        assert(motions.drop_last() =~= motions_of(ctx, before));
        assert(before =~= frames.take(frames.len() - 1));
        assert(frames =~= frames.take(frames.len() as int));
        assert forall|i: int| 0 <= i < frames.len() implies (#[trigger] motions[i] matches Some(m)
            ==> {
            &&& m.tool == ctx.tool
            &&& Some(m.target) == ctx.selection
            &&& Some(m.from) == after_frames(ctx, frames.take(i)).anchor
            &&& Some(m.to) == frames[i].position
            &&& Some(m.to) == after_frames(ctx, frames.take(i + 1)).anchor
            &&& m.from != m.to
        }) by {
            if i < frames.len() - 1 {
                assert(frames.take(i) =~= before.take(i));
                assert(frames.take(i + 1) =~= before.take(i + 1));
                assert(motions[i] == motions_of(ctx, before)[i]);
            }
        }
        lemma_translation_additive(
            basis,
            reached.anchor->0.x - start.x,
            reached.anchor->0.y - start.y,
            motion_dx(last),
            motion_dy(last),
        );
    }
}

/// A frame in which the pointer is at `at`, free, with no button edge.
pub open spec fn motion_frame(at: ScreenPoint) -> PointerFrame {
    PointerFrame {
        position: Some(at),
        primary_pressed: false,
        primary_released: false,
        over_overlay: false,
        overlay_clicked: false,
    }
}

/// Along a path that the pointer follows freely, the anchor follows the
/// pointer: after the last frame it is where the path ends, so the
/// movements add up to the displacement from the start of the drag to the
/// end of the path.
pub proof fn lemma_drag_follows_path(
    ctx: ContextModel,
    start: ScreenPoint,
    path: Seq<ScreenPoint>,
    basis: CameraBasis,
)
    requires
        ctx.wf(),
        ctx.anchor == Some(start),
        path.len() > 0,
    ensures
        ({
            let frames = path.map_values(|at: ScreenPoint| motion_frame(at));
            &&& after_frames(ctx, frames).anchor == Some(path.last())
            &&& sum_dx(motions_of(ctx, frames)) == path.last().x - start.x
            &&& sum_dy(motions_of(ctx, frames)) == path.last().y - start.y
            &&& sum_translation(basis, motions_of(ctx, frames)) == translation(
                basis,
                path.last().x - start.x,
                path.last().y - start.y,
            )
        }),
{
    let frames = path.map_values(|at: ScreenPoint| motion_frame(at));
    assert(without_edges(frames));
    lemma_drag_is_incremental(ctx, start, frames, basis);
    assert(without_edges(frames.drop_last()));
    lemma_drag_is_incremental(ctx, start, frames.drop_last(), basis);
    assert(frames.last() == motion_frame(path.last()));
}

/// The radius after a frame's scroll is within its limits, however far
/// and in whichever direction the wheel turned, and whatever the radius
/// was before.
pub proof fn lemma_zoom_stays_within_limits(orbit: OrbitModel, scroll: int)
    requires
        orbit.wf() || scroll != 0,
    ensures
        MIN_RADIUS <= orbit.zoomed_radius(scroll) <= MAX_RADIUS,
        orbit.after(scroll).wf(),
        orbit.after(scroll).focus == orbit.focus,
{
}

/// The camera keeps its distance. Placed by [`orbit_position`], it stands
/// against the viewing direction from the focus, and the square of its
/// distance from the focus is the square of the radius times the squared
/// length of the viewing direction: exactly the radius for a vector of
/// length 1.
pub proof fn lemma_camera_keeps_its_distance(focus: WorldPoint, forward: Direction, radius: int)
    ensures
        ({
            let p = orbit_position(focus, forward, radius);
            let x = p.x - focus.x * BASIS_ONE;
            let y = p.y - focus.y * BASIS_ONE;
            let z = p.z - focus.z * BASIS_ONE;
            &&& x == -(forward.x * radius)
            &&& y == -(forward.y * radius)
            &&& z == -(forward.z * radius)
            &&& x * x + y * y + z * z == radius * radius * dot(forward, forward)
        }),
{
    let fx = forward.x as int;
    let fy = forward.y as int;
    let fz = forward.z as int;
    assert((-(fx * radius)) * (-(fx * radius)) + (-(fy * radius)) * (-(fy * radius)) + (-(fz
        * radius)) * (-(fz * radius)) == radius * radius * (fx * fx + fy * fy + fz * fz))
        by (nonlinear_arith);
}

/// The state after the scrolls of several frames in turn.
pub open spec fn after_scrolls(orbit: OrbitModel, scrolls: Seq<int>) -> OrbitModel
    decreases scrolls.len(),
{
    if scrolls.len() == 0 {
        orbit
    } else {
        after_scrolls(orbit, scrolls.drop_last()).after(scrolls.last())
    }
}

/// No sequence of scrolls takes the radius out of its limits.
pub proof fn lemma_radius_never_leaves_limits(orbit: OrbitModel, scrolls: Seq<int>)
    requires
        orbit.wf(),
    ensures
        after_scrolls(orbit, scrolls).wf(),
        after_scrolls(orbit, scrolls).focus == orbit.focus,
    decreases scrolls.len(),
{
    if scrolls.len() > 0 {
        lemma_radius_never_leaves_limits(orbit, scrolls.drop_last());
        lemma_zoom_stays_within_limits(after_scrolls(orbit, scrolls.drop_last()), scrolls.last());
    }
}

} // verus!
