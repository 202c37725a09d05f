//! Orbit camera state and the input rules that mutate it.
//!
//! The camera orbits a fixed pivot: an `angle` (radians, on the
//! fixed-point scale of [`crate::units::UNIT`]) and a `distance` held in
//! `[DISTANCE_MIN, DISTANCE_MAX]`. Its world position is
//! `(cos(angle)*distance, CAMERA_HEIGHT, sin(angle)*distance)`; the
//! trigonometric projection itself is done by the caller, on the plain
//! angle and distance read from here.

use vstd::prelude::*;

use crate::units::{clamp_to, div_toward_zero, UNIT, PI_UNITS, clamp_i64};

verus! {

/// Closest the camera can come to the pivot: 1.0.
pub const DISTANCE_MIN: i64 = 1_000_000;

/// Farthest the camera can back away: 20.0.
pub const DISTANCE_MAX: i64 = 20_000_000;

/// Distance at startup: 8.0.
pub const DISTANCE_START: i64 = 8_000_000;

/// Distance after the reset action: 5.0 (deliberately not the startup
/// value).
pub const DISTANCE_RESET: i64 = 5_000_000;

/// Fixed world-space height of the camera: 2.0, independent of angle and
/// distance.
pub const CAMERA_HEIGHT: i64 = 2_000_000;

/// Idle drift added to the angle once per tick: 0.01 radians.
pub const ANGLE_DRIFT: i64 = 10_000;

/// One scroll step: the distance moves by half the scroll delta.
pub open spec fn scroll_step(distance: int, delta: int) -> int {
    clamp_to(distance - div_toward_zero(delta, 2), DISTANCE_MIN as int, DISTANCE_MAX as int)
}

/// The angle the pointer's horizontal axis selects: `x` in `[0, UNIT]`
/// maps linearly onto `[-pi, pi]`, with the center at angle zero.
pub open spec fn angle_for_pointer_x(x: int) -> int {
    div_toward_zero((2 * x - UNIT) * PI_UNITS, UNIT as int)
}

/// Orbit camera parameters.
pub struct CameraState {
    /// Orbit angle in radians, on the fixed-point scale. Unconstrained:
    /// it wraps naturally through the trigonometric projection.
    pub angle: i64,
    /// Distance from the pivot, always within
    /// `[DISTANCE_MIN, DISTANCE_MAX]`.
    pub distance: i64,
}

impl CameraState {
    /// The camera's invariant: the distance is saturated into its band.
    pub open spec fn wf(self) -> bool {
        DISTANCE_MIN <= self.distance <= DISTANCE_MAX
    }

    /// Camera at startup: dead ahead, at the startup distance.
    pub fn new() -> (c: CameraState)
        ensures
            c.wf(),
            c.angle == 0,
            c.distance == DISTANCE_START,
    {
        CameraState { angle: 0, distance: DISTANCE_START }
    }

    /// Applies one scroll event: the distance moves by half the delta
    /// (a positive delta zooms in) and saturates silently into its band.
    /// The angle is untouched.
    pub fn scroll(&mut self, delta: i64)
        requires
            old(self).wf(),
        ensures
            final(self).wf(),
            final(self).distance == scroll_step(old(self).distance as int, delta as int),
            final(self).angle == old(self).angle,
            delta >= 0 ==> final(self).distance <= old(self).distance,
            delta <= 0 ==> final(self).distance >= old(self).distance,
    {
        let half: i64 = delta / 2;
        self.distance = clamp_i64(self.distance - half, DISTANCE_MIN, DISTANCE_MAX);
    }

    /// The reset action: back to angle zero at the reset distance,
    /// whatever the state was before.
    pub fn reset(&mut self)
        ensures
            final(self).wf(),
            final(self).angle == 0,
            final(self).distance == DISTANCE_RESET,
    {
        self.angle = 0;
        self.distance = DISTANCE_RESET;
    }

    /// The per-tick idle drift: the angle advances by `ANGLE_DRIFT`. At
    /// the upper rim of the representable range the increment is
    /// absorbed, as an increment this small is by a magnitude that
    /// large.
    pub fn drift(&mut self)
        ensures
            final(self).distance == old(self).distance,
            old(self).angle + ANGLE_DRIFT <= i64::MAX ==> final(self).angle == old(self).angle
                + ANGLE_DRIFT,
            old(self).angle + ANGLE_DRIFT > i64::MAX ==> final(self).angle == old(self).angle,
    {
        if self.angle <= i64::MAX - ANGLE_DRIFT {
            self.angle = self.angle + ANGLE_DRIFT;
        }
    }

    /// Points the camera where the pointer's horizontal position says:
    /// `x` must be a normalized axis value in `[0, UNIT]`.
    pub fn aim(&mut self, x: i64)
        requires
            old(self).wf(),
            0 <= x <= UNIT,
        ensures
            final(self).wf(),
            final(self).angle == angle_for_pointer_x(x as int),
            final(self).distance == old(self).distance,
    {
        let centered: i64 = 2 * x - UNIT;
        self.angle = centered * PI_UNITS / UNIT;
    }
}

/// The distance left after a whole sequence of scroll events, applied in
/// order.
pub open spec fn distance_after_scrolls(d0: int, deltas: Seq<int>) -> int
    decreases deltas.len(),
{
    if deltas.len() == 0 {
        d0
    } else {
        distance_after_scrolls(scroll_step(d0, deltas[0]), deltas.drop_first())
    }
}

/// However long a scroll sequence runs, and whatever the sign and size
/// of its deltas, the distance stays within its band.
pub proof fn lemma_scroll_sequence_bounded(d0: int, deltas: Seq<int>)
    requires
        DISTANCE_MIN <= d0 <= DISTANCE_MAX,
    ensures
        DISTANCE_MIN <= distance_after_scrolls(d0, deltas) <= DISTANCE_MAX,
    decreases deltas.len(),
{
    if deltas.len() > 0 {
        lemma_scroll_sequence_bounded(scroll_step(d0, deltas[0]), deltas.drop_first());
    }
}

/// A scroll sequence of nonnegative deltas never moves the camera
/// farther away: the distance falls monotonically until it saturates.
pub proof fn lemma_scroll_nonneg_descends(d0: int, deltas: Seq<int>)
    requires
        DISTANCE_MIN <= d0 <= DISTANCE_MAX,
        forall|i: int| 0 <= i < deltas.len() ==> deltas[i] >= 0,
    ensures
        distance_after_scrolls(d0, deltas) <= d0,
    decreases deltas.len(),
{
    if deltas.len() > 0 {
        assert(deltas[0] >= 0);
        lemma_scroll_nonneg_descends(scroll_step(d0, deltas[0]), deltas.drop_first());
    }
}

} // verus!
