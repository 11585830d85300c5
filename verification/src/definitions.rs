//! Shared value types for thrust and duty-cycle arithmetic.
//!
//! The wire protocol carries thrust set-points as IEEE-754 single-precision
//! bit patterns; inside the core every magnitude is an exact number of
//! millionths of full scale (`UNIT_MICROS` is 1.0).  The conversion from bit
//! pattern to millionths is pure integer arithmetic on the sign, exponent and
//! mantissa fields, so it verifies like any other function of the crate.

use vstd::prelude::*;
use vstd::arithmetic::power2::pow2;
use vstd::bits::{lemma_u64_pow2_no_overflow, lemma_u64_shl_is_mul};

verus! {

/// One unit (a duty cycle of 1.0, full thrust) in millionths.
pub const UNIT_MICROS: u32 = 1_000_000;

/// A thrust set-point exactly as it came off the wire: the raw bit patterns
/// of the two little-endian IEEE-754 single-precision components.
#[derive(Debug, Copy, Clone, PartialEq, Eq, Structural)]
pub struct ThrustVector {
    /// Bit pattern of the yaw/lateral component (`x`).
    pub x_bits: u32,
    /// Bit pattern of the forward component (`y`).
    pub y_bits: u32,
}

/// A clamped thrust direction in millionths of full scale:
/// `x` in [-1_000_000, 1_000_000], `y` in [0, 1_000_000].
#[derive(Debug, Copy, Clone, PartialEq, Eq, Structural)]
pub struct DirectionVector {
    pub x_micros: i32,
    pub y_micros: i32,
}

impl DirectionVector {
    /// Both components are inside the ranges the actuators accept.
    pub open spec fn well_formed(self) -> bool {
        &&& -(UNIT_MICROS as int) <= self.x_micros <= UNIT_MICROS as int
        &&& 0 <= self.y_micros <= UNIT_MICROS as int
    }
}

/// Magnitude in millionths of the value encoded by an IEEE-754
/// single-precision bit pattern, truncated toward zero and clamped to one
/// unit.  A NaN pattern is treated as zero magnitude.
///
/// For a finite value `(-1)^s * 1.m * 2^(e-127)` the magnitude in millionths
/// is `floor((2^23 + m) * 1_000_000 / 2^(150-e))`; every exponent of 106 or
/// less (and every subnormal) is below one millionth, and every exponent of
/// 127 or more is at least a full unit.
pub open spec fn spec_magnitude_micros(bits: u32) -> u32 {
    let e = (bits >> 23) & 0xff;
    let m = bits & 0x7fffff;
    if e == 0xff {
        if m == 0 {
            UNIT_MICROS
        } else {
            0
        }
    } else if e >= 127 {
        UNIT_MICROS
    } else if e <= 106 {
        0
    } else {
        (((0x800000 + m) * (UNIT_MICROS as int)) / (pow2((150 - e) as nat) as int)) as u32
    }
}

/// Sign bit of an IEEE-754 single-precision bit pattern.
pub open spec fn spec_sign_negative(bits: u32) -> bool {
    bits >> 31 == 1
}

/// Signed value in millionths of the thrust component a bit pattern encodes,
/// clamped to [-1_000_000, 1_000_000] (NaN counts as zero).
pub open spec fn spec_signed_micros(bits: u32) -> int {
    if spec_sign_negative(bits) {
        -(spec_magnitude_micros(bits) as int)
    } else {
        spec_magnitude_micros(bits) as int
    }
}

/// Magnitude in millionths of the thrust component a bit pattern encodes.
pub fn magnitude_micros(bits: u32) -> (r: u32)
    ensures
        r == spec_magnitude_micros(bits),
        r <= UNIT_MICROS,
{
    let e: u32 = (bits >> 23) & 0xff;
    let m: u32 = bits & 0x7fffff;
    if e == 0xff {
        if m == 0 {
            UNIT_MICROS
        } else {
            0
        }
    } else if e >= 127 {
        UNIT_MICROS
    } else if e <= 106 {
        0
    } else {
        let shift: u64 = (150 - e) as u64;
        proof {
            assert(m <= 0x7fffff) by (bit_vector)
                requires
                    m == bits & 0x7fffff,
            ;
            lemma_u64_pow2_no_overflow(shift as nat);
            lemma_u64_shl_is_mul(1u64, shift);
            assert((0x800000 + m as int) * 1_000_000 <= 0xffffffu64 * 1_000_000) by (nonlinear_arith)
                requires
                    m <= 0x7fffffu32,
            ;
        }
        let num: u64 = (0x800000u64 + m as u64) * (UNIT_MICROS as u64);
        let den: u64 = 1u64 << shift;
        let q: u64 = num / den;
        proof {
            vstd::arithmetic::power2::lemma2_to64();
            vstd::arithmetic::power2::lemma_pow2_adds(24, (shift - 24) as nat);
            vstd::arithmetic::power2::lemma_pow2_pos((shift - 24) as nat);
            assert(den >= 0x1000000) by (nonlinear_arith)
                requires
                    den == pow2(24) * pow2((shift - 24) as nat),
                    pow2(24) == 0x1000000,
                    pow2((shift - 24) as nat) >= 1,
            ;
            assert(q <= UNIT_MICROS) by (nonlinear_arith)
                requires
                    q == num / den,
                    num <= 0xffffffu64 * 1_000_000,
                    den >= 0x1000000,
            ;
        }
        q as u32
    }
}

/// Signed thrust component in millionths, clamped to one unit either way.
pub fn signed_micros(bits: u32) -> (r: i32)
    ensures
        r == spec_signed_micros(bits),
        -(UNIT_MICROS as int) <= r <= UNIT_MICROS as int,
{
    let mag = magnitude_micros(bits);
    if bits >> 31 == 1 {
        0i32 - (mag as i32)
    } else {
        mag as i32
    }
}

} // verus!
