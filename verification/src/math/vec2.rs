//! Two-component vectors.

use vstd::prelude::*;
use crate::math::scalar::Scalar;

verus! {

/// A vector of two components.
#[derive(Debug, PartialEq)]
pub struct Vec2<T> {
    pub x: T,
    pub y: T,
}

impl<T: Copy> Clone for Vec2<T> {
    fn clone(&self) -> (r: Self)
        ensures
            r == *self,
    {
        *self
    }
}

impl<T: Copy> Copy for Vec2<T> {

}

impl<T: Scalar> Vec2<T> {
    /// The components in order.
    pub open spec fn view(self) -> Seq<T> {
        seq![self.x, self.y]
    }

    /// The vector whose components are both zero.
    pub open spec fn empty_spec() -> Vec2<T> {
        Vec2 { x: T::zero_spec(), y: T::zero_spec() }
    }

    /// Both components divided by `k`.
    pub open spec fn div_scalar_spec(self, k: T) -> Vec2<T> {
        Vec2 { x: self.x.over_spec(k), y: self.y.over_spec(k) }
    }

    /// The sum of the component products.
    pub open spec fn dot_spec(a: Vec2<T>, b: Vec2<T>) -> T {
        a.x.times_spec(b.x).plus_spec(a.y.times_spec(b.y))
    }

    /// The square root of `dot(a, a)` where that is positive, zero elsewhere.
    pub open spec fn length_spec(a: Vec2<T>) -> T {
        let d = Self::dot_spec(a, a);
        if d.is_positive_spec() {
            d.sqrt_spec()
        } else {
            T::zero_spec()
        }
    }

    /// `a` divided by its length where that is positive, the zero vector
    /// elsewhere.
    pub open spec fn normalize_spec(a: Vec2<T>) -> Vec2<T> {
        let len = Self::length_spec(a);
        if len.is_positive_spec() {
            a.div_scalar_spec(len)
        } else {
            Self::empty_spec()
        }
    }

    /// A vector with the given coordinates.
    pub fn new(x: T, y: T) -> (r: Vec2<T>)
        ensures
            r == (Vec2 { x, y }),
    {
        Vec2 { x, y }
    }

    /// The zero vector.
    pub fn empty() -> (r: Vec2<T>)
        ensures
            r == Self::empty_spec(),
    {
        Vec2 { x: T::zero(), y: T::zero() }
    }

    /// The component at `index`; an index of two or more is a caller's error.
    pub fn index(self, index: usize) -> (r: T)
        requires
            index < 2,
        ensures
            r == self@[index as int],
    {
        if index == 0 {
            self.x
        } else {
            self.y
        }
    }

    /// `-self`.
    pub fn neg(self) -> (r: Vec2<T>)
        ensures
            r == (Vec2 { x: self.x.negate_spec(), y: self.y.negate_spec() }),
    {
        Vec2 { x: self.x.negate(), y: self.y.negate() }
    }

    /// `self + other`, component by component.
    pub fn add(self, other: Vec2<T>) -> (r: Vec2<T>)
        ensures
            r == (Vec2 { x: self.x.plus_spec(other.x), y: self.y.plus_spec(other.y) }),
    {
        Vec2 { x: self.x.plus(other.x), y: self.y.plus(other.y) }
    }

    /// `self - other`, component by component.
    pub fn sub(self, other: Vec2<T>) -> (r: Vec2<T>)
        ensures
            r == (Vec2 { x: self.x.minus_spec(other.x), y: self.y.minus_spec(other.y) }),
    {
        Vec2 { x: self.x.minus(other.x), y: self.y.minus(other.y) }
    }

    /// `self * other`, component by component.
    pub fn mul(self, other: Vec2<T>) -> (r: Vec2<T>)
        ensures
            r == (Vec2 { x: self.x.times_spec(other.x), y: self.y.times_spec(other.y) }),
    {
        Vec2 { x: self.x.times(other.x), y: self.y.times(other.y) }
    }

    /// Both components multiplied by `k`.
    pub fn mul_scalar(self, k: T) -> (r: Vec2<T>)
        ensures
            r == (Vec2 { x: self.x.times_spec(k), y: self.y.times_spec(k) }),
    {
        Vec2 { x: self.x.times(k), y: self.y.times(k) }
    }

    /// `self / other`, component by component. A zero component in `other`
    /// gives whatever quotient the number type has for it.
    pub fn div(self, other: Vec2<T>) -> (r: Vec2<T>)
        ensures
            r == (Vec2 { x: self.x.over_spec(other.x), y: self.y.over_spec(other.y) }),
    {
        Vec2 { x: self.x.over(other.x), y: self.y.over(other.y) }
    }

    /// Both components divided by `k`.
    pub fn div_scalar(self, k: T) -> (r: Vec2<T>)
        ensures
            r == self.div_scalar_spec(k),
    {
        Vec2 { x: self.x.over(k), y: self.y.over(k) }
    }

    /// Whether the two vectors agree in both components, as the number type
    /// compares. No tolerance is applied.
    pub fn equals(self, other: Vec2<T>) -> (r: bool)
        ensures
            r == (self.x.equals_spec(other.x) && self.y.equals_spec(other.y)),
    {
        self.x.equals(other.x) && self.y.equals(other.y)
    }

    /// The dot product.
    pub fn dot(a: Vec2<T>, b: Vec2<T>) -> (r: T)
        ensures
            r == Self::dot_spec(a, b),
    {
        a.x.times(b.x).plus(a.y.times(b.y))
    }

    /// The Euclidean length, with zero for a vector whose `dot(a, a)` is not
    /// positive.
    pub fn length(a: Vec2<T>) -> (r: T)
        ensures
            r == Self::length_spec(a),
    {
        let dot_product = Self::dot(a, a);
        if dot_product.is_positive() {
            dot_product.sqrt()
        } else {
            T::zero()
        }
    }

    /// `a` scaled to unit length. A vector without positive length has no
    /// direction; the zero vector is returned for it.
    pub fn normalize(a: Vec2<T>) -> (r: Vec2<T>)
        ensures
            r == Self::normalize_spec(a),
    {
        let len = Self::length(a);
        if len.is_positive() {
            a.div_scalar(len)
        } else {
            Self::empty()
        }
    }
}

} // verus!
