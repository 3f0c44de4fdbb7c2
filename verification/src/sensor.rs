//! Conversion of the accelerometer's raw output registers into milli-g.
//!
//! The LSM303AGR in normal mode delivers each axis as a left-justified
//! 10-bit two's-complement value in two little-endian bytes; one digit is
//! 4 mg at ±2 g full scale.

use vstd::prelude::*;

verus! {

/// Milli-g per digit of the 10-bit reading at ±2 g.
pub const MG_PER_DIGIT: i16 = 4;

/// The signed 16-bit value of two bytes in little-endian order.
pub open spec fn le_i16(lo: u8, hi: u8) -> int {
    let u = lo as int + 256 * hi as int;
    if u >= 32768 {
        u - 65536
    } else {
        u
    }
}

/// One axis in mg: the 16-bit register pair shifted right arithmetically by
/// six bits (rounding towards minus infinity), times [`MG_PER_DIGIT`].
pub open spec fn axis_mg(lo: u8, hi: u8) -> int {
    (le_i16(lo, hi) / 64) * MG_PER_DIGIT as int
}

/// Converts one register pair (low byte first) to mg.
pub fn axis_from_raw(lo: u8, hi: u8) -> (mg: i16)
    ensures
        mg as int == axis_mg(lo, hi),
        -2048 <= mg <= 2044,
{
    let u: i32 = lo as i32 + 256 * (hi as i32);
    let s: i32 = if u >= 32768 {
        u - 65536
    } else {
        u
    };
    let q: i32 = if s >= 0 {
        s / 64
    } else {
        let m: i32 = 63 - s;
        -(m / 64)
    };
    proof {
        if s >= 0 {
            assert(q == s / 64);
        } else {
            let m = 63 - s;
            assert(q == -(m / 64));
            assert(-(m / 64) == s / 64) by (nonlinear_arith)
                requires
                    s < 0,
                    m == 63 - s,
            ;
        }
        assert(-512 <= q <= 511) by (nonlinear_arith)
            requires
                q == s / 64,
                -32768 <= s < 32768,
        ;
    }
    let digit: i32 = MG_PER_DIGIT as i32;
    assert(digit == 4);
    (q * digit) as i16
}

/// Converts the six output registers OUT_X_L_A .. OUT_Z_H_A, read in one
/// auto-incrementing burst, into the X/Y/Z acceleration in mg.
pub fn accel_mg_from_raw(raw: &[u8; 6]) -> (mg: [i16; 3])
    ensures
        mg@[0] as int == axis_mg(raw@[0], raw@[1]),
        mg@[1] as int == axis_mg(raw@[2], raw@[3]),
        mg@[2] as int == axis_mg(raw@[4], raw@[5]),
{
    let x = axis_from_raw(raw[0], raw[1]);
    let y = axis_from_raw(raw[2], raw[3]);
    let z = axis_from_raw(raw[4], raw[5]);
    [x, y, z]
}

} // verus!
