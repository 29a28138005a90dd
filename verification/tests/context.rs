use editor_core::{
    DragMotion, FrameOutcome, GeometryError, InteractionContext, ObjectHandle, PickOutcome,
    PointerFrame, ScreenPoint, Tool,
};

fn frame(x: i32, y: i32) -> PointerFrame {
    PointerFrame {
        position: Some(ScreenPoint::new(x, y)),
        primary_pressed: false,
        primary_released: false,
        over_overlay: false,
        overlay_clicked: false,
    }
}

fn press(x: i32, y: i32) -> PointerFrame {
    PointerFrame { primary_pressed: true, ..frame(x, y) }
}

fn release(x: i32, y: i32) -> PointerFrame {
    PointerFrame { primary_released: true, ..frame(x, y) }
}

fn selected(handle: ObjectHandle, tool: Tool) -> InteractionContext {
    let mut ctx = InteractionContext::new();
    let out = ctx.advance(&press(0, 0), Ok(Some(handle)));
    assert_eq!(out.pick, PickOutcome::Selected(handle));
    ctx.advance(&release(0, 0), Ok(None));
    ctx.set_tool(tool);
    ctx
}

#[test]
fn new_context_starts_with_select_and_nothing_selected() {
    let ctx = InteractionContext::new();
    assert_eq!(ctx.selection(), None);
    assert_eq!(ctx.tool(), Tool::Select);
    assert!(!ctx.is_dragging());
    assert_eq!(InteractionContext::default(), ctx);
    assert_eq!(Tool::default(), Tool::Select);
}

#[test]
fn overlay_hover_blocks_pick_and_drag() {
    let a = ObjectHandle::new(1, 0);
    let b = ObjectHandle::new(2, 0);
    for tool in [Tool::Select, Tool::Move, Tool::Rotate, Tool::Scale] {
        let mut ctx = selected(a, tool);
        let before = ctx;
        let hover = PointerFrame { over_overlay: true, ..press(40, 40) };
        assert!(hover.overlay_consumed_pointer());
        assert_eq!(ctx.pick_point(&hover), None);
        let out = ctx.advance(&hover, Ok(Some(b)));
        assert_eq!(out, FrameOutcome { pick: PickOutcome::Ignored, motion: None });
        assert_eq!(ctx, before);
    }
}

#[test]
fn overlay_click_blocks_pick_and_drag() {
    let a = ObjectHandle::new(1, 0);
    let mut ctx = selected(a, Tool::Select);
    let clicked = PointerFrame { overlay_clicked: true, ..press(40, 40) };
    assert!(clicked.overlay_consumed_pointer());
    let out = ctx.advance(&clicked, Ok(None));
    assert_eq!(out.pick, PickOutcome::Ignored);
    assert_eq!(ctx.selection(), Some(a));
    assert!(!frame(1, 1).overlay_consumed_pointer());
}

#[test]
fn overlay_blocks_motion_of_an_active_drag() {
    let a = ObjectHandle::new(1, 0);
    let mut ctx = selected(a, Tool::Move);
    ctx.advance(&press(10, 10), Ok(None));
    assert!(ctx.is_dragging());
    let hover = PointerFrame { over_overlay: true, ..frame(50, 60) };
    let out = ctx.advance(&hover, Ok(None));
    assert_eq!(out.motion, None);
    assert!(ctx.is_dragging());
    // The anchor did not follow the pointer across the overlay.
    let out = ctx.advance(&frame(12, 10), Ok(None));
    assert_eq!(
        out.motion,
        Some(DragMotion {
            tool: Tool::Move,
            target: a,
            from: ScreenPoint::new(10, 10),
            to: ScreenPoint::new(12, 10),
        })
    );
}

#[test]
fn release_over_overlay_ends_the_drag() {
    let a = ObjectHandle::new(1, 0);
    let mut ctx = selected(a, Tool::Scale);
    ctx.advance(&press(10, 10), Ok(None));
    let up = PointerFrame { over_overlay: true, ..release(300, 10) };
    let out = ctx.advance(&up, Ok(None));
    assert_eq!(out.motion, None);
    assert!(!ctx.is_dragging());
    assert_eq!(ctx.selection(), Some(a));
}

#[test]
fn pick_replaces_the_selection() {
    let a = ObjectHandle::new(1, 0);
    let b = ObjectHandle::new(2, 5);
    let mut ctx = selected(a, Tool::Select);
    assert_eq!(ctx.pick_point(&press(7, 9)), Some(ScreenPoint::new(7, 9)));
    let out = ctx.resolve_pick(&press(7, 9), Ok(Some(b)));
    assert_eq!(out, PickOutcome::Selected(b));
    assert_eq!(ctx.selection(), Some(b));
}

#[test]
fn click_on_object_selects_it_once() {
    let o = ObjectHandle::new(9, 3);
    let other = ObjectHandle::new(10, 0);
    let mut ctx = InteractionContext::new();
    let down = ctx.advance(&press(100, 50), Ok(Some(o)));
    assert_eq!(down, FrameOutcome { pick: PickOutcome::Selected(o), motion: None });
    // The release asks for no ray, and a ray result would be ignored.
    assert_eq!(ctx.pick_point(&release(100, 50)), None);
    let up = ctx.advance(&release(100, 50), Ok(Some(other)));
    assert_eq!(up, FrameOutcome { pick: PickOutcome::Ignored, motion: None });
    assert_eq!(ctx.selection(), Some(o));
    assert!(!ctx.is_dragging());
}

#[test]
fn click_on_nothing_clears_the_selection() {
    let a = ObjectHandle::new(1, 0);
    let mut ctx = selected(a, Tool::Select);
    let down = ctx.advance(&press(100, 50), Ok(None));
    assert_eq!(down.pick, PickOutcome::Cleared);
    ctx.advance(&release(100, 50), Ok(Some(a)));
    assert_eq!(ctx.selection(), None);
}

#[test]
fn press_and_release_in_one_frame_selects_and_leaves_no_drag() {
    let o = ObjectHandle::new(4, 4);
    let mut ctx = InteractionContext::new();
    let both = PointerFrame { primary_released: true, ..press(3, 3) };
    let out = ctx.advance(&both, Ok(Some(o)));
    assert_eq!(out.pick, PickOutcome::Selected(o));
    assert_eq!(ctx.selection(), Some(o));
    ctx.set_tool(Tool::Move);
    let out = ctx.advance(&both, Ok(None));
    assert_eq!(out, FrameOutcome { pick: PickOutcome::Ignored, motion: None });
    assert!(!ctx.is_dragging());
}

#[test]
fn degenerate_projection_leaves_the_selection() {
    let a = ObjectHandle::new(1, 0);
    let mut ctx = selected(a, Tool::Select);
    let out = ctx.advance(&press(5, 5), Err(GeometryError::DegenerateProjection));
    assert_eq!(out.pick, PickOutcome::Failed(GeometryError::DegenerateProjection));
    assert_eq!(out.motion, None);
    assert_eq!(ctx.selection(), Some(a));
}

#[test]
fn no_pick_with_another_tool_or_without_press_or_outside_the_window() {
    let a = ObjectHandle::new(1, 0);
    let b = ObjectHandle::new(2, 0);
    for tool in [Tool::Move, Tool::Rotate, Tool::Scale] {
        let mut ctx = selected(a, tool);
        assert_eq!(ctx.pick_point(&press(5, 5)), None);
        assert_eq!(ctx.resolve_pick(&press(5, 5), Ok(Some(b))), PickOutcome::Ignored);
        assert_eq!(ctx.selection(), Some(a));
    }
    let mut ctx = selected(a, Tool::Select);
    assert_eq!(ctx.resolve_pick(&frame(5, 5), Ok(None)), PickOutcome::Ignored);
    let outside = PointerFrame { position: None, ..press(0, 0) };
    assert_eq!(ctx.resolve_pick(&outside, Ok(None)), PickOutcome::Ignored);
    assert_eq!(ctx.selection(), Some(a));
}

#[test]
fn drag_reports_each_frames_own_movement() {
    let a = ObjectHandle::new(1, 0);
    let mut ctx = selected(a, Tool::Move);
    assert_eq!(ctx.drag_step(&press(10, 20)), None);
    let path = [(13, 20), (13, 20), (20, 31), (-4, 0), (7, 8)];
    let mut last = (10, 20);
    let mut sum = (0i64, 0i64);
    for (x, y) in path {
        let motion = ctx.drag_step(&frame(x, y));
        if (x, y) == last {
            assert_eq!(motion, None);
        } else {
            let m = motion.expect("the pointer moved");
            assert_eq!(m.from, ScreenPoint::new(last.0, last.1));
            assert_eq!(m.to, ScreenPoint::new(x, y));
            assert_eq!(m.tool, Tool::Move);
            assert_eq!(m.target, a);
            sum.0 += m.delta().horizontal();
            sum.1 += m.delta().vertical();
        }
        last = (x, y);
    }
    assert_eq!(sum, (7 - 10, 8 - 20));
    assert_eq!(ctx.drag_step(&release(7, 8)), None);
    assert!(!ctx.is_dragging());
    assert_eq!(ctx.drag_step(&frame(100, 100)), None);
}

#[test]
fn press_without_selection_starts_no_drag() {
    let mut ctx = InteractionContext::new();
    ctx.set_tool(Tool::Rotate);
    assert_eq!(ctx.drag_step(&press(1, 1)), None);
    assert!(!ctx.is_dragging());
    assert_eq!(ctx.drag_step(&frame(9, 9)), None);
}

#[test]
fn select_tool_never_drags() {
    let a = ObjectHandle::new(1, 0);
    let mut ctx = selected(a, Tool::Select);
    assert_eq!(ctx.advance(&press(1, 1), Ok(Some(a))).motion, None);
    assert!(!ctx.is_dragging());
    assert_eq!(ctx.advance(&frame(30, 30), Ok(Some(a))).motion, None);
}

#[test]
fn pointer_outside_the_window_moves_nothing() {
    let a = ObjectHandle::new(1, 0);
    let mut ctx = selected(a, Tool::Move);
    ctx.drag_step(&press(10, 10));
    let outside = PointerFrame { position: None, ..frame(0, 0) };
    assert_eq!(ctx.drag_step(&outside), None);
    assert!(ctx.is_dragging());
    let m = ctx.drag_step(&frame(11, 10)).expect("the pointer moved");
    assert_eq!(m.from, ScreenPoint::new(10, 10));
}

#[test]
fn tool_switch_cancels_the_drag() {
    let a = ObjectHandle::new(1, 0);
    let mut ctx = selected(a, Tool::Move);
    ctx.drag_step(&press(10, 10));
    assert!(ctx.drag_step(&frame(20, 10)).is_some());
    // The pointer has moved on, but the tool changes before the next step.
    ctx.set_tool(Tool::Scale);
    assert!(!ctx.is_dragging());
    assert_eq!(ctx.tool(), Tool::Scale);
    assert_eq!(ctx.selection(), Some(a));
    assert_eq!(ctx.drag_step(&frame(90, 10)), None);
    assert_eq!(ctx.drag_step(&frame(95, 10)), None);
}

#[test]
fn choosing_the_active_tool_again_keeps_the_drag() {
    let a = ObjectHandle::new(1, 0);
    let mut ctx = selected(a, Tool::Rotate);
    ctx.drag_step(&press(10, 10));
    ctx.set_tool(Tool::Rotate);
    assert!(ctx.is_dragging());
    assert!(ctx.drag_step(&frame(11, 11)).is_some());
}

#[test]
fn stale_selection_is_dropped_with_its_drag() {
    let a = ObjectHandle::new(1, 0);
    let mut ctx = selected(a, Tool::Move);
    ctx.drag_step(&press(10, 10));
    ctx.revalidate(true);
    assert_eq!(ctx.selection(), Some(a));
    assert!(ctx.is_dragging());
    ctx.revalidate(false);
    assert_eq!(ctx.selection(), None);
    assert!(!ctx.is_dragging());
    assert_eq!(ctx.tool(), Tool::Move);
    assert_eq!(ctx.drag_step(&frame(50, 50)), None);
    let mut empty = InteractionContext::new();
    empty.revalidate(false);
    assert_eq!(empty, InteractionContext::new());
}

#[test]
fn extreme_positions_do_not_overflow() {
    let a = ObjectHandle::new(1, 0);
    let mut ctx = selected(a, Tool::Scale);
    ctx.drag_step(&press(i32::MIN, i32::MAX));
    let m = ctx.drag_step(&frame(i32::MAX, i32::MIN)).expect("the pointer moved");
    assert_eq!(m.delta().horizontal(), 0xffff_ffff);
    assert_eq!(m.delta().vertical(), -0xffff_ffff);
}

#[test]
fn movements_add_up_to_the_displacement_of_the_anchor() {
    let a = ObjectHandle::new(1, 0);
    let mut ctx = selected(a, Tool::Move);
    ctx.drag_step(&press(100, 100));
    let frames = [
        frame(110, 100),
        PointerFrame { over_overlay: true, ..frame(400, 400) },
        PointerFrame { position: None, ..frame(0, 0) },
        frame(110, 100),
        PointerFrame { overlay_clicked: true, ..frame(90, 90) },
        frame(95, 130),
        frame(100, 100),
        frame(64, 81),
    ];
    let mut sum = (0i64, 0i64);
    let mut anchor = ScreenPoint::new(100, 100);
    for f in frames {
        if let Some(m) = ctx.drag_step(&f) {
            assert_eq!(m.from, anchor);
            assert_eq!(Some(m.to), f.position);
            assert_ne!(m.from, m.to);
            anchor = m.to;
            sum.0 += m.delta().horizontal();
            sum.1 += m.delta().vertical();
        }
        assert!(ctx.is_dragging());
    }
    assert_eq!(anchor, ScreenPoint::new(64, 81));
    assert_eq!(sum, (64 - 100, 81 - 100));
}
