//! The per-frame parameter record handed to the GPU program.
//!
//! The GPU program reads the record positionally, with no type metadata,
//! so the byte layout is the contract: 48 bytes, little-endian 32-bit
//! fields at fixed offsets, padding zeroed. Each 32-bit field carries
//! one IEEE-754 single-precision value as its raw bit pattern; the
//! caller converts its floating-point values to bit patterns at the
//! edge, and this module pins where every bit lands — and pins the
//! camera's height field to the fixed height constant outright.

use vstd::prelude::*;
use vstd::arithmetic::power2::{
    pow2,
    lemma_pow2_adds,
    lemma_pow2_pos,
    lemma_pow2_unfold,
    lemma2_to64,
};
use vstd::arithmetic::mul::{
    lemma_mul_is_associative,
    lemma_mul_inequality,
    lemma_mul_strict_inequality,
};
use vstd::arithmetic::div_mod::lemma_fundamental_div_mod_converse;

verus! {

/// The record's exact size in bytes.
pub const RECORD_BYTES: usize = 48;

/// Bit pattern of the IEEE-754 single 2.0: the camera's fixed height.
pub const CAMERA_HEIGHT_BITS: u32 = 0x4000_0000;

/// Bit pattern of the IEEE-754 single 0.5: a pointer axis at the center.
pub const POINTER_CENTER_BITS: u32 = 0x3F00_0000;

/// Bit pattern of the IEEE-754 single -8.0: the depth axis of the
/// camera position written at startup, before any tick has run.
pub const START_CAMERA_Z_BITS: u32 = 0xC100_0000;

/// The four bytes of one 32-bit field, least significant first.
pub open spec fn le_bytes32(v: u32) -> Seq<u8> {
    seq![
        (v & 0xFF) as u8,
        ((v >> 8) & 0xFF) as u8,
        ((v >> 16) & 0xFF) as u8,
        ((v >> 24) & 0xFF) as u8,
    ]
}

/// The whole record: resolution at offset 0, time at 8, pointer at 16,
/// camera position at 32, with zeroed alignment filler at 12, 24 and 44
/// — and the camera's height field, at offset 36, always the fixed
/// height constant.
pub open spec fn record_bytes(
    res_x: u32,
    res_y: u32,
    time: u32,
    pointer_x: u32,
    pointer_y: u32,
    camera_x: u32,
    camera_z: u32,
) -> Seq<u8> {
    le_bytes32(res_x) + le_bytes32(res_y) + le_bytes32(time) + le_bytes32(0) + le_bytes32(
        pointer_x,
    ) + le_bytes32(pointer_y) + le_bytes32(0) + le_bytes32(0) + le_bytes32(camera_x) + le_bytes32(
        CAMERA_HEIGHT_BITS,
    ) + le_bytes32(camera_z) + le_bytes32(0)
}

/// Appends one 32-bit field to the record, least significant byte first.
fn push_le32(out: &mut Vec<u8>, v: u32)
    ensures
        final(out)@ == old(out)@ + le_bytes32(v),
{
    out.push((v & 0xFF) as u8);
    out.push(((v >> 8) & 0xFF) as u8);
    out.push(((v >> 16) & 0xFF) as u8);
    out.push(((v >> 24) & 0xFF) as u8);
    proof {
        assert(out@ =~= old(out)@ + le_bytes32(v));
    }
}

/// Builds one frame's parameter record from the bit patterns of its
/// fields. The record is rebuilt and rewritten whole every tick, never
/// patched; its height field is the fixed height constant whatever the
/// inputs are.
pub fn frame_parameters_bytes(
    res_x: u32,
    res_y: u32,
    time: u32,
    pointer_x: u32,
    pointer_y: u32,
    camera_x: u32,
    camera_z: u32,
) -> (r: Vec<u8>)
    ensures
        r@ == record_bytes(res_x, res_y, time, pointer_x, pointer_y, camera_x, camera_z),
        r@.len() == RECORD_BYTES,
{
    let mut out: Vec<u8> = Vec::new();
    push_le32(&mut out, res_x);
    push_le32(&mut out, res_y);
    push_le32(&mut out, time);
    push_le32(&mut out, 0);
    push_le32(&mut out, pointer_x);
    push_le32(&mut out, pointer_y);
    push_le32(&mut out, 0);
    push_le32(&mut out, 0);
    push_le32(&mut out, camera_x);
    push_le32(&mut out, CAMERA_HEIGHT_BITS);
    push_le32(&mut out, camera_z);
    push_le32(&mut out, 0);
    proof {
        assert(out@ =~= record_bytes(
            res_x,
            res_y,
            time,
            pointer_x,
            pointer_y,
            camera_x,
            camera_z,
        ));
    }
    out
}

/// The record written once at startup, before the first tick: the given
/// resolution, time zero, the pointer at the center, and the camera on
/// the depth axis at the startup distance, at the fixed height.
pub fn initial_parameters_bytes(res_x: u32, res_y: u32) -> (r: Vec<u8>)
    ensures
        r@ == record_bytes(
            res_x,
            res_y,
            0,
            POINTER_CENTER_BITS,
            POINTER_CENTER_BITS,
            0,
            START_CAMERA_Z_BITS,
        ),
        r@.len() == RECORD_BYTES,
{
    frame_parameters_bytes(
        res_x,
        res_y,
        0,
        POINTER_CENTER_BITS,
        POINTER_CENTER_BITS,
        0,
        START_CAMERA_Z_BITS,
    )
}

/// The largest pixel count a single-precision field carries exactly.
pub const MAX_EXACT_PIXELS: u32 = 0x100_0000;

/// The exponent field of a single-precision bit pattern whose sign bit
/// is clear.
pub open spec fn single_exponent(bits: u32) -> int {
    bits as int / 0x80_0000
}

/// The fraction field of a single-precision bit pattern.
pub open spec fn single_fraction(bits: u32) -> int {
    bits as int % 0x80_0000
}

/// The value a nonnegative normal single-precision bit pattern denotes,
/// scaled by 2^23 to stay an integer: the implied-one significand times
/// two to the unbiased exponent.
pub open spec fn single_value_scaled(bits: u32) -> int {
    (0x80_0000 + single_fraction(bits)) * pow2((single_exponent(bits) - 127) as nat)
}

/// The single-precision bit pattern whose value is exactly the pixel
/// count `n`: zero maps to the zero pattern, and every positive count up
/// to `MAX_EXACT_PIXELS` to the normal pattern that denotes it, with the
/// sign bit clear. Feeds the record's resolution fields.
pub fn pixels_to_single_bits(n: u32) -> (r: u32)
    requires
        n <= MAX_EXACT_PIXELS,
    ensures
        n == 0 ==> r == 0,
        n > 0 ==> r < 0x8000_0000,
        n > 0 ==> 127 <= single_exponent(r) <= 151,
        n > 0 ==> single_value_scaled(r) == n * 0x80_0000,
{
    if n == 0 {
        return 0;
    }
    if n == MAX_EXACT_PIXELS {
        let r: u32 = 151 * 0x80_0000;
        proof {
            lemma_fundamental_div_mod_converse(r as int, 0x80_0000, 151, 0);
            lemma2_to64();
            assert(single_value_scaled(r) == 0x80_0000 * pow2(24));
        }
        return r;
    }
    // Find the floor of the base-two logarithm of n: p == pow2(k) <= n,
    // with q the cofactor keeping p * q == pow2(23) throughout.
    let mut k: u32 = 0;
    let mut p: u32 = 1;
    let mut q: u32 = 0x80_0000;
    proof {
        lemma2_to64();
    }
    while n >= 2 * p
        invariant
            0 < n < MAX_EXACT_PIXELS,
            k <= 23,
            p == pow2(k as nat),
            q == pow2((23 - k) as nat),
            p <= n,
        decreases 23 - k,
    {
        proof {
            lemma2_to64();
            if k == 23 {
                // p would be pow2(23), putting 2 * p past n's bound.
                assert(false);
            }
            lemma_pow2_unfold((k + 1) as nat);
            lemma_pow2_unfold((23 - k) as nat);
        }
        p = p * 2;
        q = q / 2;
        k = k + 1;
    }
    // Now pow2(k) <= n < pow2(k + 1): k is the unbiased exponent, and
    // n * q is the significand with its implied one in place.
    proof {
        lemma2_to64();
        lemma_pow2_adds(k as nat, (23 - k) as nat);
        lemma_pow2_pos((23 - k) as nat);
        lemma_mul_inequality(p as int, n as int, q as int);
        lemma_mul_strict_inequality(n as int, 2 * (p as int), q as int);
        lemma_mul_is_associative(2, p as int, q as int);
        assert(0x80_0000 <= (n as int) * (q as int) < 0x100_0000);
    }
    let m: u32 = n * q;
    let frac: u32 = m - 0x80_0000;
    let r: u32 = (127 + k) * 0x80_0000 + frac;
    proof {
        lemma_fundamental_div_mod_converse(r as int, 0x80_0000, (127 + k) as int, frac as int);
        assert(single_value_scaled(r) == (m as int) * pow2(k as nat));
        lemma_mul_is_associative(n as int, q as int, p as int);
        lemma_pow2_adds((23 - k) as nat, k as nat);
    }
    r
}

/// The layout, field by field: the record is exactly 48 bytes; the
/// resolution pair sits at offset 0, the time at 8, the pointer pair at
/// 16, the camera position triple at 32; the filler at 12, 24 and 44 is
/// zeroed; and the height field at offset 36 is the fixed height
/// constant for every input.
#[verifier::rlimit(50)]
pub proof fn lemma_record_layout(
    res_x: u32,
    res_y: u32,
    time: u32,
    pointer_x: u32,
    pointer_y: u32,
    camera_x: u32,
    camera_z: u32,
)
    ensures
        record_bytes(res_x, res_y, time, pointer_x, pointer_y, camera_x, camera_z).len() == 48,
        record_bytes(res_x, res_y, time, pointer_x, pointer_y, camera_x, camera_z).subrange(0, 4)
            == le_bytes32(res_x),
        record_bytes(res_x, res_y, time, pointer_x, pointer_y, camera_x, camera_z).subrange(4, 8)
            == le_bytes32(res_y),
        record_bytes(res_x, res_y, time, pointer_x, pointer_y, camera_x, camera_z).subrange(8, 12)
            == le_bytes32(time),
        record_bytes(res_x, res_y, time, pointer_x, pointer_y, camera_x, camera_z).subrange(12, 16)
            == le_bytes32(0),
        record_bytes(res_x, res_y, time, pointer_x, pointer_y, camera_x, camera_z).subrange(16, 20)
            == le_bytes32(pointer_x),
        record_bytes(res_x, res_y, time, pointer_x, pointer_y, camera_x, camera_z).subrange(20, 24)
            == le_bytes32(pointer_y),
        record_bytes(res_x, res_y, time, pointer_x, pointer_y, camera_x, camera_z).subrange(24, 32)
            == le_bytes32(0) + le_bytes32(0),
        record_bytes(res_x, res_y, time, pointer_x, pointer_y, camera_x, camera_z).subrange(32, 36)
            == le_bytes32(camera_x),
        record_bytes(res_x, res_y, time, pointer_x, pointer_y, camera_x, camera_z).subrange(36, 40)
            == le_bytes32(CAMERA_HEIGHT_BITS),
        record_bytes(res_x, res_y, time, pointer_x, pointer_y, camera_x, camera_z).subrange(40, 44)
            == le_bytes32(camera_z),
        record_bytes(res_x, res_y, time, pointer_x, pointer_y, camera_x, camera_z).subrange(44, 48)
            == le_bytes32(0),
{
    let r = record_bytes(res_x, res_y, time, pointer_x, pointer_y, camera_x, camera_z);
    assert(r.subrange(0, 4) =~= le_bytes32(res_x));
    assert(r.subrange(4, 8) =~= le_bytes32(res_y));
    assert(r.subrange(8, 12) =~= le_bytes32(time));
    assert(r.subrange(12, 16) =~= le_bytes32(0));
    assert(r.subrange(16, 20) =~= le_bytes32(pointer_x));
    assert(r.subrange(20, 24) =~= le_bytes32(pointer_y));
    assert(r.subrange(24, 32) =~= le_bytes32(0) + le_bytes32(0));
    assert(r.subrange(32, 36) =~= le_bytes32(camera_x));
    assert(r.subrange(36, 40) =~= le_bytes32(CAMERA_HEIGHT_BITS));
    assert(r.subrange(40, 44) =~= le_bytes32(camera_z));
    assert(r.subrange(44, 48) =~= le_bytes32(0));
}

} // verus!
