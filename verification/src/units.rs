//! Fixed-point scale and the arithmetic the state machine is stated in.
//!
//! Every fractional quantity of the core (normalized pointer axes, camera
//! angle in radians, camera distance) is carried as an `i64` count of
//! `UNIT`ths, so that clamping, normalization and scaling are exact
//! integer operations with exact contracts.

use vstd::prelude::*;

verus! {

/// One whole unit of the fixed-point scale: 1.0 is `UNIT` parts.
pub const UNIT: i64 = 1_000_000;

/// One half unit: 0.5 on the fixed-point scale.
pub const HALF_UNIT: i64 = 500_000;

/// The half turn (pi radians) on the fixed-point scale, rounded to the
/// nearest part.
pub const PI_UNITS: i64 = 3_141_593;

/// Saturation of `v` into the closed interval `[lo, hi]`.
pub open spec fn clamp_to(v: int, lo: int, hi: int) -> int {
    if v < lo {
        lo
    } else if v > hi {
        hi
    } else {
        v
    }
}

/// Saturation into the unit interval `[0, UNIT]`, i.e. `[0.0, 1.0]`.
pub open spec fn unit_clamp(v: int) -> int {
    clamp_to(v, 0, UNIT as int)
}

/// Integer division that rounds toward zero, as the machine division of
/// the executable code does.
pub open spec fn div_toward_zero(a: int, b: int) -> int {
    if a >= 0 {
        a / b
    } else {
        -((-a) / b)
    }
}

/// Saturates `v` into `[lo, hi]`.
pub fn clamp_i64(v: i64, lo: i64, hi: i64) -> (r: i64)
    requires
        lo <= hi,
    ensures
        r == clamp_to(v as int, lo as int, hi as int),
{
    if v < lo {
        lo
    } else if v > hi {
        hi
    } else {
        v
    }
}

} // verus!
