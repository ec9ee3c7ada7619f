//! The simulation's only source of randomness, behind one trusted
//! wrapper. Everything computed from a drawn value is verified for every
//! value the contract admits.

use vstd::prelude::*;

use crate::fixed::POS_LIMIT;

verus! {

/// Relies on macroquad's `rand::gen_range` (the quad-rand generator): it
/// returns `low + (high - low) * r` with `r` drawn in `[0, 1)`, computed
/// in `f64` and truncated back toward zero to the integer type. For
/// bounds within the world's coordinate range the sum stays within
/// `[low, high]` after rounding (the real value is below `high`, but for
/// a large `low` the rounding of the sum can land on `high` itself), and
/// the monotone truncation keeps the closed range. Nothing more is
/// assumed of the value; every caller accepts the whole closed range.
#[verifier::external_body]
pub(crate) fn gen_range_fx(low: i64, high: i64) -> (r: i64)
    requires
        -POS_LIMIT <= low <= high <= POS_LIMIT,
    ensures
        low <= r <= high,
{
    macroquad::rand::gen_range(low, high)
}

} // verus!
