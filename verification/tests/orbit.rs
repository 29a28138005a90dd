use editor_core::{
    CameraBasis, CameraPosition, Direction, FrameMotion, OrbitCommand, OrbitEvent, OrbitRotation,
    OrbitState, WorldPoint, BASIS_ONE, LENGTH_ONE, MAX_RADIUS, MIN_RADIUS, ORBIT_ANGLE_ONE,
    POSITION_ONE, SCROLL_ONE, ZOOM_ONE,
};

fn origin() -> WorldPoint {
    WorldPoint { x: 0, y: 0, z: 0 }
}

fn camera(radius: u32) -> OrbitState {
    // 0.005 rad per pixel, a tenth of the radius per notch.
    OrbitState::new(origin(), radius, 5_000, 100)
}

#[test]
fn limits_are_two_and_twenty_units() {
    assert_eq!(MIN_RADIUS as f64 / LENGTH_ONE as f64, 2.0);
    assert_eq!(MAX_RADIUS as f64 / LENGTH_ONE as f64, 20.0);
    assert_eq!(ZOOM_ONE, SCROLL_ONE as i128 * 1_000);
    assert_eq!(POSITION_ONE, LENGTH_ONE as i64 * BASIS_ONE as i64);
}

#[test]
fn new_clamps_the_radius() {
    assert_eq!(camera(10_000).radius(), 10_000);
    assert_eq!(camera(0).radius(), MIN_RADIUS);
    assert_eq!(camera(1_999).radius(), MIN_RADIUS);
    assert_eq!(camera(2_000).radius(), 2_000);
    assert_eq!(camera(20_000).radius(), 20_000);
    assert_eq!(camera(20_001).radius(), MAX_RADIUS);
    assert_eq!(camera(u32::MAX).radius(), MAX_RADIUS);
    let f = WorldPoint { x: 1, y: -2, z: 3 };
    assert_eq!(OrbitState::new(f, 5_000, 1, 1).focus(), f);
}

#[test]
fn accumulate_sums_the_events_of_a_frame() {
    let events = [
        OrbitEvent::Motion { dx: 3, dy: -1 },
        OrbitEvent::Scroll { amount: 1_000 },
        OrbitEvent::Motion { dx: -10, dy: 4 },
        OrbitEvent::Scroll { amount: -250 },
        OrbitEvent::Motion { dx: 2, dy: 2 },
    ];
    let held = FrameMotion::accumulate(&events, true);
    assert_eq!((held.horizontal(), held.vertical(), held.wheel()), (-5, 5, 750));
    assert_eq!(held, FrameMotion::new(-5, 5, 750));
    // Without the secondary button only the wheel counts.
    let free = FrameMotion::accumulate(&events, false);
    assert_eq!(free, FrameMotion::new(0, 0, 750));
    assert_eq!(FrameMotion::accumulate(&[], true), FrameMotion::new(0, 0, 0));
}

#[test]
fn accumulate_does_not_overflow() {
    let events = vec![OrbitEvent::Motion { dx: i32::MAX, dy: i32::MIN }; 5];
    let m = FrameMotion::accumulate(&events, true);
    assert_eq!(m.horizontal(), 5 * i32::MAX as i128);
    assert_eq!(m.vertical(), 5 * i32::MIN as i128);
    let events = vec![OrbitEvent::Scroll { amount: i32::MIN }; 3];
    assert_eq!(FrameMotion::accumulate(&events, false).wheel(), 3 * i32::MIN as i128);
}

#[test]
fn rotation_goes_against_the_motion() {
    let cam = camera(10_000);
    let turn = cam.rotation(&FrameMotion::new(20, -8, 0));
    assert_eq!(turn, Some(OrbitRotation { yaw: -100_000, pitch: 40_000 }));
    // 20 pixels at 0.005 rad per pixel are 0.1 rad.
    assert!((100_000.0 / ORBIT_ANGLE_ONE as f64 - 0.1).abs() < 1e-12);
    assert_eq!(cam.rotation(&FrameMotion::new(0, 1, 0)), Some(OrbitRotation { yaw: 0, pitch: -5_000 }));
}

#[test]
fn no_motion_no_rotation() {
    let cam = camera(10_000);
    assert_eq!(cam.rotation(&FrameMotion::new(0, 0, 500)), None);
    let events = [OrbitEvent::Motion { dx: 4, dy: 4 }];
    assert_eq!(cam.rotation(&FrameMotion::accumulate(&events, false)), None);
    let back = [OrbitEvent::Motion { dx: 4, dy: 4 }, OrbitEvent::Motion { dx: -4, dy: -4 }];
    assert_eq!(cam.rotation(&FrameMotion::accumulate(&back, true)), None);
}

#[test]
fn zoom_scales_the_radius() {
    let mut cam = camera(10_000);
    // One notch in: 10 * (1 - 1 * 0.1) = 9.
    assert_eq!(cam.zoom(&FrameMotion::new(0, 0, 1_000)), Some(9_000));
    assert_eq!(cam.radius(), 9_000);
    // Half a notch out: 9 * (1 + 0.05) = 9.45.
    assert_eq!(cam.zoom(&FrameMotion::new(0, 0, -500)), Some(9_450));
    assert_eq!(cam.radius(), 9_450);
}

#[test]
fn zoom_rounds_down_to_a_length_unit() {
    let mut cam = OrbitState::new(origin(), 3_333, 0, 1);
    // 3333 * (1 - 0.001 * 0.001) = 3332.996667
    assert_eq!(cam.zoom(&FrameMotion::new(0, 0, 1)), Some(3_332));
    let mut cam = OrbitState::new(origin(), 3_333, 0, 1);
    // 3333 * (1 + 0.000001) = 3333.003333
    assert_eq!(cam.zoom(&FrameMotion::new(0, 0, -1)), Some(3_333));
}

#[test]
fn no_scroll_no_zoom() {
    let mut cam = camera(7_000);
    assert_eq!(cam.zoom(&FrameMotion::new(50, 50, 0)), None);
    assert_eq!(cam.radius(), 7_000);
}

#[test]
fn radius_stays_within_limits() {
    let scrolls: [i64; 12] =
        [1, -1, 9_999, 10_000, 10_001, -100_000, i64::MAX, i64::MIN, 5_000, -5_000, 20_000, -1];
    for start in [MIN_RADIUS, 2_001, 10_000, 19_999, MAX_RADIUS] {
        for sensitivity in [0u16, 1, 100, 1_000, u16::MAX] {
            let mut cam = OrbitState::new(origin(), start, 0, sensitivity);
            for s in scrolls {
                let z = cam.zoom(&FrameMotion::new(0, 0, s));
                assert_eq!(z, Some(cam.radius()));
                assert!(MIN_RADIUS <= cam.radius() && cam.radius() <= MAX_RADIUS);
            }
        }
    }
}

#[test]
fn zoom_clamps_at_both_ends() {
    let mut cam = camera(10_000);
    // Ten notches in make the factor zero, more make it negative.
    assert_eq!(cam.zoom(&FrameMotion::new(0, 0, 10_000)), Some(MIN_RADIUS));
    let mut cam = camera(10_000);
    assert_eq!(cam.zoom(&FrameMotion::new(0, 0, 50_000)), Some(MIN_RADIUS));
    let mut cam = camera(10_000);
    // 8 notches in: 10 * 0.2 = 2 exactly; 8.001 notches fall below.
    assert_eq!(cam.zoom(&FrameMotion::new(0, 0, 8_000)), Some(2_000));
    let mut cam = camera(10_000);
    assert_eq!(cam.zoom(&FrameMotion::new(0, 0, 7_990)), Some(2_010));
    let mut cam = camera(10_000);
    // Ten notches out double the radius: 20 exactly.
    assert_eq!(cam.zoom(&FrameMotion::new(0, 0, -10_000)), Some(MAX_RADIUS));
    let mut cam = camera(10_000);
    assert_eq!(cam.zoom(&FrameMotion::new(0, 0, -9_990)), Some(19_990));
    let mut cam = camera(10_000);
    assert_eq!(cam.zoom(&FrameMotion::new(0, 0, i64::MIN)), Some(MAX_RADIUS));
    // The widest sum that events can reach.
    let events = vec![OrbitEvent::Scroll { amount: i32::MIN }; 1_000];
    let mut cam = OrbitState::new(origin(), 10_000, 0, u16::MAX);
    assert_eq!(cam.zoom(&FrameMotion::accumulate(&events, false)), Some(MAX_RADIUS));
}

#[test]
fn update_turns_and_zooms_in_one_frame() {
    let mut cam = camera(10_000);
    let events = [OrbitEvent::Motion { dx: 2, dy: 0 }, OrbitEvent::Scroll { amount: 2_000 }];
    let cmd = cam.update(&FrameMotion::accumulate(&events, true));
    assert_eq!(
        cmd,
        OrbitCommand { rotation: Some(OrbitRotation { yaw: -10_000, pitch: 0 }), zoom: Some(8_000) }
    );
    assert_eq!(cam.radius(), 8_000);
    let cmd = cam.update(&FrameMotion::accumulate(&events, false));
    assert_eq!(cmd, OrbitCommand { rotation: None, zoom: Some(6_400) });
    let cmd = cam.update(&FrameMotion::new(0, 0, 0));
    assert_eq!(cmd, OrbitCommand { rotation: None, zoom: None });
    assert_eq!(cam.radius(), 6_400);
}

#[test]
fn camera_stands_at_focus_minus_forward_times_radius() {
    let focus = WorldPoint { x: 1_000, y: 2_000, z: -3_000 };
    let mut cam = OrbitState::new(focus, 5_000, 5_000, 100);
    let basis = CameraBasis::new(
        Direction { x: 6_000_000, y: 0, z: -8_000_000 },
        Direction { x: 8_000_000, y: 0, z: 6_000_000 },
    )
    .expect("orthonormal");
    let p = cam.camera_position(&basis);
    assert_eq!(
        p,
        CameraPosition {
            x: 1_000 * 10_000_000 - 6_000_000 * 5_000,
            y: 2_000 * 10_000_000,
            z: -3_000 * 10_000_000 + 8_000_000 * 5_000,
        }
    );
    let unit = POSITION_ONE as f64;
    let (x, y, z) = (p.x as f64 / unit, p.y as f64 / unit, p.z as f64 / unit);
    assert!((x - (1.0 - 0.6 * 5.0)).abs() < 1e-5);
    assert!((y - 2.0).abs() < 1e-5);
    assert!((z - (-3.0 + 0.8 * 5.0)).abs() < 1e-5);
    // After a clamped zoom the position follows the new radius.
    cam.zoom(&FrameMotion::new(0, 0, -1_000_000));
    assert_eq!(cam.radius(), MAX_RADIUS);
    let p = cam.camera_position(&basis);
    let (x, z) = (p.x as f64 / unit, p.z as f64 / unit);
    assert!((x - (1.0 - 0.6 * 20.0)).abs() < 1e-5);
    assert!((z - (-3.0 + 0.8 * 20.0)).abs() < 1e-5);
}

#[test]
fn camera_position_at_the_edges_of_the_scene() {
    let focus = WorldPoint { x: i32::MAX, y: i32::MIN, z: 0 };
    let cam = OrbitState::new(focus, MAX_RADIUS, 0, 0);
    let basis = CameraBasis::new(
        Direction { x: -BASIS_ONE, y: 0, z: 0 },
        Direction { x: 0, y: 0, z: -BASIS_ONE },
    )
    .expect("orthonormal");
    let p = cam.camera_position(&basis);
    assert_eq!(p.x, i32::MAX as i64 * 10_000_000 + 10_000_000 * 20_000);
    assert_eq!(p.y, i32::MIN as i64 * 10_000_000);
    assert_eq!(p.z, 0);
}
