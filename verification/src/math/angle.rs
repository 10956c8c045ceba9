//! Angles in degrees and radians, and the steps from a horizontal to a
//! vertical opening angle.
//!
//! Tangent and arctangent are the number type's own and have no named result.
//! What the library hands them, and what it makes of what they give back, is
//! computed here, step by step.

use vstd::prelude::*;
use crate::math::scalar::Scalar;

verus! {

/// `deg` degrees in radians: `deg` times the quotient of pi and 180.
pub open spec fn to_radians_spec<T: Scalar>(deg: T) -> T {
    deg.times_spec(T::pi_spec().over_spec(T::from_u32_spec(180)))
}

/// `rad` radians in degrees: `rad` times the quotient of 180 and pi.
pub open spec fn to_degrees_spec<T: Scalar>(rad: T) -> T {
    rad.times_spec(T::from_u32_spec(180).over_spec(T::pi_spec()))
}

/// Half of `deg` degrees, in radians.
pub open spec fn half_angle_radians_spec<T: Scalar>(deg: T) -> T {
    to_radians_spec(deg).times_spec(
        T::one_spec().over_spec(T::one_spec().plus_spec(T::one_spec())),
    )
}

/// The tangent of half the vertical opening angle of a picture, given that of
/// half its horizontal opening angle and its width over its height.
pub open spec fn vertical_half_tangent_spec<T: Scalar>(tan_half_h: T, aspect: T) -> T {
    tan_half_h.over_spec(aspect)
}

/// The opening angle, in degrees, whose half is `half_angle` radians.
pub open spec fn opening_angle_spec<T: Scalar>(half_angle: T) -> T {
    to_degrees_spec(T::one_spec().plus_spec(T::one_spec()).times_spec(half_angle))
}

/// `deg` degrees in radians.
pub fn to_radians<T: Scalar>(deg: T) -> (r: T)
    ensures
        r == to_radians_spec(deg),
{
    deg.times(T::pi().over(T::from_u32(180)))
}

/// `rad` radians in degrees.
pub fn to_degrees<T: Scalar>(rad: T) -> (r: T)
    ensures
        r == to_degrees_spec(rad),
{
    rad.times(T::from_u32(180).over(T::pi()))
}

/// Half of `deg` degrees, in radians: what is handed to the tangent.
pub fn half_angle_radians<T: Scalar>(deg: T) -> (r: T)
    ensures
        r == half_angle_radians_spec(deg),
{
    to_radians(deg).times(T::one().over(T::one().plus(T::one())))
}

/// The tangent of half the vertical opening angle, from that of half the
/// horizontal one: what is handed to the arctangent.
pub fn vertical_half_tangent<T: Scalar>(tan_half_h: T, aspect: T) -> (r: T)
    ensures
        r == vertical_half_tangent_spec(tan_half_h, aspect),
{
    tan_half_h.over(aspect)
}

/// The opening angle, in degrees, whose half is `half_angle` radians: what is
/// made of the arctangent.
pub fn opening_angle<T: Scalar>(half_angle: T) -> (r: T)
    ensures
        r == opening_angle_spec(half_angle),
{
    to_degrees(T::one().plus(T::one()).times(half_angle))
}

} // verus!
