use vstd::prelude::*;
use wide::f32x8;

verus! {

/// Eight single-precision lanes of the `wide` crate, carried through the
/// library as an opaque value.
#[verifier::external_type_specification]
#[verifier::external_body]
pub struct ExLanes(f32x8);

/// Holds when `r` is a lane-wise IEEE sum of `a` and `b`. It is a relation,
/// not a function: where a lane's sum is NaN, its bit pattern may differ
/// from one evaluation to the next.
pub uninterp spec fn is_lane_sum(a: f32x8, b: f32x8, r: f32x8) -> bool;

/// Holds when `r` is a lane-wise IEEE product of `a` and `b`; a relation for
/// the same reason as `is_lane_sum`.
pub uninterp spec fn is_lane_product(a: f32x8, b: f32x8, r: f32x8) -> bool;

/// Relies on `<wide::f32x8 as Add>::add`: adds lane by lane.
#[verifier::external_body]
pub(crate) fn add_lanes(a: f32x8, b: f32x8) -> (r: f32x8)
    ensures
        is_lane_sum(a, b, r),
{
    a + b
}

/// Relies on `<wide::f32x8 as Mul>::mul`: multiplies lane by lane.
#[verifier::external_body]
pub(crate) fn mul_lanes(a: f32x8, b: f32x8) -> (r: f32x8)
    ensures
        is_lane_product(a, b, r),
{
    a * b
}

} // verus!
