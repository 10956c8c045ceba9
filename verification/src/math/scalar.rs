//! The number type that vectors and matrices are made of.

use vstd::prelude::*;

verus! {

/// A machine number: the component type of every vector and matrix.
///
/// Nothing in this crate implements the trait; it is the seam at which a
/// program binds the library to its number type, in practice IEEE-754 single
/// precision. Each operation that has a `*_spec` companion must be a function of
/// its operands: the contracts of this crate name results through those
/// companions and are only as good as that promise. Sine, cosine, tangent and
/// arctangent carry no such promise, because their precision may differ from
/// one machine to the next. An implementation that is written outside Verus gives
/// each companion the body of the operation it stands for.
///
/// No algebraic law is asked of an implementation. Where a property of the
/// library needs one (that a product commutes, that zero is neutral), the
/// property states it as a premise.
pub trait Scalar: Copy {
    /// The additive unit.
    spec fn zero_spec() -> Self;

    /// The multiplicative unit.
    spec fn one_spec() -> Self;

    /// The number that stands for the whole number `n`.
    spec fn from_u32_spec(n: u32) -> Self;

    /// The number that stands for the circle constant, half a turn in radians.
    spec fn pi_spec() -> Self;

    /// `self + rhs`.
    spec fn plus_spec(self, rhs: Self) -> Self;

    /// `self - rhs`.
    spec fn minus_spec(self, rhs: Self) -> Self;

    /// `self * rhs`.
    spec fn times_spec(self, rhs: Self) -> Self;

    /// `self / rhs`. A zero divisor is no error: the quotient is whatever the
    /// number type yields for it.
    spec fn over_spec(self, rhs: Self) -> Self;

    /// `-self`.
    spec fn negate_spec(self) -> Self;

    /// The square root of `self`.
    spec fn sqrt_spec(self) -> Self;

    /// `self > 0`.
    spec fn is_positive_spec(self) -> bool;

    /// `self == rhs` as the number type compares, which need not be identity.
    spec fn equals_spec(self, rhs: Self) -> bool;

    fn zero() -> (r: Self)
        ensures
            r == Self::zero_spec(),
    ;

    fn one() -> (r: Self)
        ensures
            r == Self::one_spec(),
    ;

    fn from_u32(n: u32) -> (r: Self)
        ensures
            r == Self::from_u32_spec(n),
    ;

    fn pi() -> (r: Self)
        ensures
            r == Self::pi_spec(),
    ;

    fn plus(self, rhs: Self) -> (r: Self)
        ensures
            r == self.plus_spec(rhs),
    ;

    fn minus(self, rhs: Self) -> (r: Self)
        ensures
            r == self.minus_spec(rhs),
    ;

    fn times(self, rhs: Self) -> (r: Self)
        ensures
            r == self.times_spec(rhs),
    ;

    fn over(self, rhs: Self) -> (r: Self)
        ensures
            r == self.over_spec(rhs),
    ;

    fn negate(self) -> (r: Self)
        ensures
            r == self.negate_spec(),
    ;

    fn sqrt(self) -> (r: Self)
        ensures
            r == self.sqrt_spec(),
    ;

    fn is_positive(self) -> (r: bool)
        ensures
            r == self.is_positive_spec(),
    ;

    fn equals(self, rhs: Self) -> (r: bool)
        ensures
            r == self.equals_spec(rhs),
    ;

    /// The sine of `self`, an angle in radians.
    fn sin(self) -> Self;

    /// The cosine of `self`, an angle in radians.
    fn cos(self) -> Self;

    /// The tangent of `self`, an angle in radians.
    fn tan(self) -> Self;

    /// The arctangent of `self`, in radians.
    fn atan(self) -> Self;

}

} // verus!
