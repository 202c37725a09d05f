use ray_marcher::camera::{
    ANGLE_DRIFT, DISTANCE_MAX, DISTANCE_MIN, DISTANCE_RESET, DISTANCE_START,
};
use ray_marcher::controller::{render_decision, FrameController, RenderAction};
use ray_marcher::units::{HALF_UNIT, PI_UNITS, UNIT};

#[test]
fn startup_defaults() {
    let c = FrameController::new(1024, 768);
    assert_eq!(c.camera.angle, 0);
    assert_eq!(c.camera.distance, DISTANCE_START);
    assert_eq!(c.pointer.x, HALF_UNIT);
    assert_eq!(c.pointer.y, HALF_UNIT);
    assert_eq!(c.width, 1024);
    assert_eq!(c.height, 768);
}

#[test]
fn pointer_at_center_gives_angle_zero() {
    let mut c = FrameController::new(1024, 768);
    // Pointer at (512, 384) on a 1024x768 surface, in fixed-point pixels.
    c.pointer_move(512 * UNIT, 384 * UNIT);
    assert_eq!(c.pointer.x, HALF_UNIT);
    assert_eq!(c.pointer.y, HALF_UNIT);
    assert_eq!(c.camera.angle, 0);
    assert_eq!(c.camera.distance, DISTANCE_START);
}

#[test]
fn pointer_edges_map_to_half_turns() {
    let mut c = FrameController::new(800, 600);
    c.pointer_move(800 * UNIT, 0);
    assert_eq!(c.pointer.x, UNIT);
    // Raw y = 0 is the top edge; the stored axis has its origin at the
    // bottom, so the value flips to 1.0.
    assert_eq!(c.pointer.y, UNIT);
    assert_eq!(c.camera.angle, PI_UNITS);
    c.pointer_move(0, 600 * UNIT);
    assert_eq!(c.pointer.x, 0);
    assert_eq!(c.pointer.y, 0);
    assert_eq!(c.camera.angle, -PI_UNITS);
}

#[test]
fn pointer_outside_surface_is_clamped() {
    let mut c = FrameController::new(1024, 768);
    c.pointer_move(-5 * UNIT, 10_000 * UNIT);
    assert_eq!(c.pointer.x, 0);
    assert_eq!(c.pointer.y, 0);
    c.pointer_move(123_456 * UNIT, -1);
    assert_eq!(c.pointer.x, UNIT);
    assert_eq!(c.pointer.y, UNIT);
}

#[test]
fn scroll_descends_and_clamps_at_the_near_bound() {
    let mut c = FrameController::new(1024, 768);
    assert_eq!(c.camera.distance, 8_000_000);
    // Scroll delta +10, repeatedly: 8.0 -> 3.0 -> 1.0 -> 1.0 -> ...
    let mut previous: i64 = c.camera.distance;
    let expected: [i64; 4] = [3_000_000, 1_000_000, 1_000_000, 1_000_000];
    for want in expected {
        c.scroll(10 * UNIT);
        assert_eq!(c.camera.distance, want);
        assert!(c.camera.distance <= previous);
        assert!(c.camera.distance >= DISTANCE_MIN);
        previous = c.camera.distance;
    }
}

#[test]
fn scroll_clamps_at_the_far_bound() {
    let mut c = FrameController::new(1024, 768);
    c.scroll(-1_000_000 * UNIT);
    assert_eq!(c.camera.distance, DISTANCE_MAX);
    c.scroll(i64::MAX);
    assert_eq!(c.camera.distance, DISTANCE_MIN);
    c.scroll(i64::MIN);
    assert_eq!(c.camera.distance, DISTANCE_MAX);
}

#[test]
fn scroll_halves_the_delta() {
    let mut c = FrameController::new(1024, 768);
    c.scroll(UNIT);
    assert_eq!(c.camera.distance, 7_500_000);
    c.scroll(-UNIT);
    assert_eq!(c.camera.distance, 8_000_000);
}

#[test]
fn reset_overrides_any_prior_state() {
    let mut c = FrameController::new(1024, 768);
    c.pointer_move(1000 * UNIT, 20 * UNIT);
    c.scroll(-9 * UNIT);
    c.reset();
    assert_eq!(c.camera.angle, 0);
    assert_eq!(c.camera.distance, DISTANCE_RESET);
    let mut d = FrameController::new(64, 64);
    d.reset();
    assert_eq!(d.camera.angle, 0);
    assert_eq!(d.camera.distance, DISTANCE_RESET);
}

#[test]
fn zero_area_resize_makes_pointer_moves_no_ops() {
    let mut c = FrameController::new(1024, 768);
    c.pointer_move(100 * UNIT, 100 * UNIT);
    let pointer_x: i64 = c.pointer.x;
    let pointer_y: i64 = c.pointer.y;
    let angle: i64 = c.camera.angle;
    c.resize(0, 0);
    c.pointer_move(512 * UNIT, 384 * UNIT);
    assert_eq!(c.pointer.x, pointer_x);
    assert_eq!(c.pointer.y, pointer_y);
    assert_eq!(c.camera.angle, angle);
    assert_eq!(c.camera.distance, DISTANCE_START);
    assert_eq!(c.width, 0);
    assert_eq!(c.height, 0);
}

#[test]
fn resize_keeps_camera_and_pointer() {
    let mut c = FrameController::new(1024, 768);
    c.scroll(2 * UNIT);
    c.resize(333, 444);
    assert_eq!(c.width, 333);
    assert_eq!(c.height, 444);
    assert_eq!(c.camera.distance, 7_000_000);
    assert_eq!(c.pointer.x, HALF_UNIT);
}

#[test]
fn ticks_without_a_surface_still_advance_the_state() {
    let mut c = FrameController::new(1024, 768);
    let mut angle: i64 = c.camera.angle;
    // The surface reports "not ready" for three consecutive ticks: the
    // update step still runs each tick, the render step is a no-op.
    for _ in 0..3 {
        c.update_tick();
        assert_eq!(c.camera.angle, angle + ANGLE_DRIFT);
        assert_eq!(c.camera.distance, DISTANCE_START);
        angle = c.camera.angle;
        let action = render_decision(false);
        assert!(matches!(action, RenderAction::Skip));
    }
}

#[test]
fn ready_surface_draws_the_whole_quad() {
    let action = render_decision(true);
    assert!(matches!(action, RenderAction::Draw { vertex_count: 6 }));
}

#[test]
fn idle_drift_saturates_at_the_rim() {
    let mut c = FrameController::new(1, 1);
    c.update_tick();
    c.update_tick();
    assert_eq!(c.camera.angle, 2 * ANGLE_DRIFT);
    c.camera.angle = i64::MAX - 1;
    c.update_tick();
    assert_eq!(c.camera.angle, i64::MAX - 1);
}
