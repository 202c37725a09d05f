//! The frame controller: pointer state, surface size, and the input
//! state machine that turns raw events into camera mutations.
//!
//! Pointer positions arrive in surface-local fixed-point pixels (a pixel
//! is [`crate::units::UNIT`] parts, so sub-pixel positions survive);
//! scroll deltas arrive on the same scale. The controller normalizes,
//! clamps and saturates exactly as stated here, and ignores everything
//! else.

use vstd::prelude::*;

use crate::camera::{CameraState, angle_for_pointer_x, scroll_step};
use crate::units::{clamp_i64, div_toward_zero, unit_clamp, UNIT, HALF_UNIT};

verus! {

/// The normalized value of one pointer axis: position over size, rounded
/// toward zero, saturated into `[0, UNIT]`.
pub open spec fn norm_axis(pos: int, size: int) -> int {
    unit_clamp(div_toward_zero(pos, size))
}

/// Normalized pointer position, each axis in `[0, UNIT]`, origin at the
/// bottom-left of the surface.
pub struct PointerState {
    /// Horizontal axis, `0` at the left edge, `UNIT` at the right.
    pub x: i64,
    /// Vertical axis, inverted relative to the raw input: `0` at the
    /// bottom edge, `UNIT` at the top.
    pub y: i64,
}

impl PointerState {
    /// The pointer's invariant: both axes normalized.
    pub open spec fn wf(self) -> bool {
        0 <= self.x <= UNIT && 0 <= self.y <= UNIT
    }

    /// Pointer at startup: the center of the surface.
    pub fn new() -> (p: PointerState)
        ensures
            p.wf(),
            p.x == HALF_UNIT,
            p.y == HALF_UNIT,
    {
        PointerState { x: HALF_UNIT, y: HALF_UNIT }
    }
}

/// Normalizes one axis of a raw pointer position against a surface
/// dimension.
fn normalize_axis(pos: i64, size: u32) -> (r: i64)
    requires
        size > 0,
    ensures
        r == norm_axis(pos as int, size as int),
        0 <= r <= UNIT,
{
    let q: i64 = pos / (size as i64);
    clamp_i64(q, 0, UNIT)
}

/// What one tick's render step is to do.
pub enum RenderAction {
    /// A surface image is in hand: encode one draw over `vertex_count`
    /// vertices of the static quad, present it, and commit.
    Draw { vertex_count: usize },
    /// No surface image this tick: a benign skip, not a failure.
    Skip,
}

/// Decides the render step from whether the collaborator handed over a
/// presentable surface image: a draw over the six quad vertices when it
/// did, a silent skip when it did not.
pub fn render_decision(surface_ready: bool) -> (a: RenderAction)
    ensures
        surface_ready ==> a == (RenderAction::Draw { vertex_count: 6 }),
        !surface_ready ==> a == RenderAction::Skip,
{
    if surface_ready {
        RenderAction::Draw { vertex_count: 6 }
    } else {
        RenderAction::Skip
    }
}

/// The one stateful object of the core: camera, pointer, and the surface
/// size the next events will be measured against.
pub struct FrameController {
    /// The orbit camera the input events steer.
    pub camera: CameraState,
    /// The latest normalized pointer position.
    pub pointer: PointerState,
    /// Current surface width in pixels.
    pub width: u32,
    /// Current surface height in pixels.
    pub height: u32,
}

impl FrameController {
    /// The controller's invariant: camera and pointer each hold theirs.
    pub open spec fn wf(self) -> bool {
        self.camera.wf() && self.pointer.wf()
    }

    /// Controller at startup: default camera, pointer at the center,
    /// surface at its initial size.
    pub fn new(width: u32, height: u32) -> (c: FrameController)
        ensures
            c.wf(),
            c.camera.angle == 0,
            c.camera.distance == crate::camera::DISTANCE_START,
            c.pointer.x == HALF_UNIT,
            c.pointer.y == HALF_UNIT,
            c.width == width,
            c.height == height,
    {
        FrameController {
            camera: CameraState::new(),
            pointer: PointerState::new(),
            width,
            height,
        }
    }

    /// A resize event: only the stored surface size changes; camera and
    /// pointer are untouched. The caller passes the same dimensions on
    /// to the rendering surface at once.
    pub fn resize(&mut self, width: u32, height: u32)
        ensures
            final(self).width == width,
            final(self).height == height,
            final(self).camera == old(self).camera,
            final(self).pointer == old(self).pointer,
    {
        self.width = width;
        self.height = height;
    }

    /// A pointer-move event, in surface-local fixed-point pixels. On a
    /// zero-area surface the event is discarded whole (no division, no
    /// mutation). Otherwise both axes are normalized into `[0, UNIT]`
    /// (the vertical one flipped, origin bottom-left) and the camera is
    /// aimed by the horizontal axis; the distance stays.
    pub fn pointer_move(&mut self, x: i64, y: i64)
        requires
            old(self).wf(),
        ensures
            final(self).wf(),
            old(self).width == 0 || old(self).height == 0 ==> *final(self) == *old(self),
            old(self).width > 0 && old(self).height > 0 ==> {
                &&& final(self).pointer.x == norm_axis(x as int, old(self).width as int)
                &&& final(self).pointer.y == UNIT - norm_axis(y as int, old(self).height as int)
                &&& final(self).camera.angle == angle_for_pointer_x(final(self).pointer.x as int)
                &&& final(self).camera.distance == old(self).camera.distance
                &&& final(self).width == old(self).width
                &&& final(self).height == old(self).height
            },
    {
        if self.width == 0 || self.height == 0 {
            return ;
        }
        let px = normalize_axis(x, self.width);
        let py = UNIT - normalize_axis(y, self.height);
        self.pointer = PointerState { x: px, y: py };
        self.camera.aim(px);
    }

    /// A scroll event: half the delta comes off the distance, saturated
    /// silently into its band. Nothing else moves.
    pub fn scroll(&mut self, delta: i64)
        requires
            old(self).wf(),
        ensures
            final(self).wf(),
            final(self).camera.distance == scroll_step(
                old(self).camera.distance as int,
                delta as int,
            ),
            final(self).camera.angle == old(self).camera.angle,
            final(self).pointer == old(self).pointer,
            final(self).width == old(self).width,
            final(self).height == old(self).height,
            delta >= 0 ==> final(self).camera.distance <= old(self).camera.distance,
            delta <= 0 ==> final(self).camera.distance >= old(self).camera.distance,
    {
        self.camera.scroll(delta);
    }

    /// The reset key: the camera goes back to angle zero at the reset
    /// distance, whatever came before; pointer and size stay.
    pub fn reset(&mut self)
        ensures
            final(self).camera.angle == 0,
            final(self).camera.distance == crate::camera::DISTANCE_RESET,
            final(self).camera.wf(),
            final(self).pointer == old(self).pointer,
            final(self).width == old(self).width,
            final(self).height == old(self).height,
    {
        self.camera.reset();
    }

    /// The update step of one tick: the idle drift advances the angle;
    /// nothing depends on whether the render step will find a surface.
    pub fn update_tick(&mut self)
        ensures
            final(self).camera.distance == old(self).camera.distance,
            old(self).camera.angle + crate::camera::ANGLE_DRIFT <= i64::MAX
                ==> final(self).camera.angle == old(self).camera.angle + crate::camera::ANGLE_DRIFT,
            old(self).camera.angle + crate::camera::ANGLE_DRIFT > i64::MAX
                ==> final(self).camera.angle == old(self).camera.angle,
            final(self).pointer == old(self).pointer,
            final(self).width == old(self).width,
            final(self).height == old(self).height,
    {
        self.camera.drift();
    }
}

/// Saturation commutes with the vertical flip: clamping the raw ratio
/// and then inverting the axis lands exactly where inverting and then
/// clamping would, so the stored vertical axis is the clamped flipped
/// ratio.
pub proof fn lemma_flip_commutes_with_clamp(q: int)
    ensures
        UNIT - unit_clamp(q) == unit_clamp(UNIT - q),
{
}

/// For any pointer position over a surface with positive area, the
/// normalized axes land in the unit interval.
pub proof fn lemma_pointer_axes_normalized(x: int, y: int, width: int, height: int)
    requires
        width > 0,
        height > 0,
    ensures
        0 <= norm_axis(x, width) <= UNIT,
        0 <= UNIT - norm_axis(y, height) <= UNIT,
{
}

} // verus!
