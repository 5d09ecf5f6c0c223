//! The legacy subtractive generator and the 32-bit arithmetic it relies on.
use vstd::prelude::*;

pub mod cs_random;

pub use cs_random::CSRandom;

verus! {

/// The generator's modulus, `i32::MAX`.
pub const MAX_INT: i32 = 0x7FFFFFFF;

/// The most negative 32-bit integer.
pub const MIN_INT: i32 = -2147483648;

/// The fixed constant that seeds the generator's state.
pub const MSEED: i32 = 0x09A4EC86;

/// Rust's `/` on 32-bit signed integers: the quotient rounded toward zero.
pub open spec fn trunc_div(x: int, d: int) -> int {
    if x >= 0 {
        x / d
    } else {
        -((-x) / d)
    }
}

/// Rust's `%` on signed integers: the remainder takes the sign of `x`.
pub open spec fn trunc_rem(x: int, d: int) -> int {
    x - d * trunc_div(x, d)
}

/// Wraps a 64-bit value to 32 bits, as 32-bit signed arithmetic overflows.
pub fn int_overflow(val: i64) -> (r: i32)
    ensures
        r == val as i32,
        i32::MIN <= val <= i32::MAX ==> r == val,
{
    #[verifier::truncate]
    (val as i32)
}


} // verus!
