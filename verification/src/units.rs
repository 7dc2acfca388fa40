//! Fixed-point units shared by the whole simulation.

use vstd::prelude::*;

verus! {

/// Number of fixed-point units per pixel. A position of `50 * PX` is the
/// pixel coordinate 50; a velocity of `1_400_000` is 1.4 pixels per tick.
pub const PX: i64 = 1_000_000;

/// Largest magnitude any position-like quantity handled by the simulation may
/// have. Generous enough for any on-screen coordinate (about four billion
/// pixels) while keeping every intermediate sum far inside `i64`.
pub const POS_LIMIT: i64 = 0x8_0000_0000_0000;

/// Largest magnitude of the cab's velocity: 1.4 pixels per tick.
pub const VEL_LIMIT: i64 = 1_400_000;

/// Mathematical sign: 1 for positive, -1 for negative, 0 for zero.
pub open spec fn sign(v: int) -> int {
    if v > 0 {
        1
    } else if v < 0 {
        -1
    } else {
        0
    }
}

/// Executable counterpart of [`sign`].
pub fn sign_i64(v: i64) -> (s: i64)
    ensures
        s == sign(v as int),
{
    if v > 0 {
        1
    } else if v < 0 {
        -1
    } else {
        0
    }
}

/// Mathematical absolute value.
pub open spec fn abs(v: int) -> int {
    if v < 0 {
        -v
    } else {
        v
    }
}

} // verus!
