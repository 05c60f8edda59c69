//! Fixed-point numbers: one unit is a millionth.
//!
//! Every continuous quantity in the tree (seconds, coordinates, easing
//! progress) is an `i64` counting millionths, so `SCALE` stands for the
//! real number one.

use vstd::prelude::*;

verus! {

/// The fixed-point representation of one: values are in millionths.
pub const SCALE: i64 = 1_000_000;

/// Magnitude bound kept by every quantity a [`crate::context::Context`]
/// carries; small enough that products with `SCALE` stay inside `i64`.
pub const MAX_MAGNITUDE: i64 = 4_000_000_000_000;

/// Division of non-negative fixed-point values, routed through `u64`.
pub fn div_nn(a: i64, b: i64) -> (r: i64)
    requires
        0 <= a,
        0 < b,
    ensures
        r as int == a as int / b as int,
        0 <= r <= a,
{
    proof {
        vstd::arithmetic::div_mod::lemma_div_nonincreasing(a as int, b as int);
        vstd::arithmetic::div_mod::lemma_div_pos_is_pos(a as int, b as int);
    }
    ((a as u64) / (b as u64)) as i64
}

} // verus!
