//! The integer step of the precision reduction.
//!
//! A sample is scaled by `PRECISION_STEPS` and truncated to an integer; the
//! level kept is that integer's low eight bits, read in two's complement, and
//! the sample becomes that level divided by `PRECISION_STEPS`. Levels beyond
//! the 8-bit range wrap around instead of saturating: that wrap is part of the
//! effect's sound.

use vstd::prelude::*;

verus! {

/// Grid steps per unit of amplitude.
pub const PRECISION_STEPS: i32 = 15;

/// Two's-complement truncation of an integer to eight bits.
pub open spec fn wrap_i8(n: int) -> int {
    (n + 128) % 256 - 128
}

/// The 8-bit level kept of a scaled sample, given the scaled sample truncated
/// to an integer.
pub fn precision_level(scaled: i32) -> (r: i8)
    ensures
        r as int == wrap_i8(scaled as int),
        -128 <= scaled < 128 ==> r as int == scaled as int,
{
    // Shifting by 2^31, a multiple of 256, keeps the low eight bits and makes
    // the value non-negative.
    let shifted: u64 = (scaled as i64 + 2147483648i64) as u64;
    let low: u64 = (shifted + 128) % 256;
    proof {
        assert((shifted as int + 128) % 256 == (scaled as int + 128) % 256) by (nonlinear_arith)
            requires
                shifted as int == scaled as int + 2147483648,
        ;
    }
    (low as i64 - 128) as i8
}

} // verus!
