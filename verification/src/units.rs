//! Fixed-point representation of normalized parameter values.
//!
//! A normalized value lies in `[0, 1]` and is stored as an integer number of
//! ticks in `[0, NORM_ONE]`, so one tick is one millionth of the unit range.

use vstd::prelude::*;

verus! {

/// One whole unit of a normalized value, in ticks.
pub const NORM_ONE: u32 = 1_000_000;

/// Whether `n` is a valid normalized value: at most one whole unit.
pub open spec fn is_normalized(n: u32) -> bool {
    n <= NORM_ONE
}

/// The mathematical clamp of an unbounded axis value into `[0, NORM_ONE]`.
pub open spec fn clamped(raw: int) -> int {
    if raw < 0 {
        0
    } else if raw > NORM_ONE {
        NORM_ONE as int
    } else {
        raw
    }
}

/// Clamp a raw fixed-point axis value to the normalized range.
///
/// This is the parameter-write boundary: mappings that are allowed to leave
/// the unit range (relative-from-center) pass through here before a value is
/// written.
pub fn clamp_normalized(raw: i64) -> (n: u32)
    ensures
        n == clamped(raw as int),
        is_normalized(n),
{
    if raw < 0 {
        0
    } else if raw > NORM_ONE as i64 {
        NORM_ONE
    } else {
        raw as u32
    }
}

} // verus!
