//! Three-component vectors.

use vstd::prelude::*;
use crate::math::scalar::Scalar;

verus! {

/// A vector of three components.
#[derive(Debug, PartialEq)]
pub struct Vec3<T> {
    pub x: T,
    pub y: T,
    pub z: T,
}

impl<T: Copy> Clone for Vec3<T> {
    fn clone(&self) -> (r: Self)
        ensures
            r == *self,
    {
        *self
    }
}

impl<T: Copy> Copy for Vec3<T> {

}

impl<T: Scalar> Vec3<T> {
    /// The components in order.
    pub open spec fn view(self) -> Seq<T> {
        seq![self.x, self.y, self.z]
    }

    /// The vector whose components are all zero.
    pub open spec fn empty_spec() -> Vec3<T> {
        Vec3 { x: T::zero_spec(), y: T::zero_spec(), z: T::zero_spec() }
    }

    /// Every component negated.
    pub open spec fn neg_spec(self) -> Vec3<T> {
        Vec3 { x: self.x.negate_spec(), y: self.y.negate_spec(), z: self.z.negate_spec() }
    }

    /// The component-wise difference `self - other`.
    pub open spec fn sub_spec(self, other: Vec3<T>) -> Vec3<T> {
        Vec3 {
            x: self.x.minus_spec(other.x),
            y: self.y.minus_spec(other.y),
            z: self.z.minus_spec(other.z),
        }
    }

    /// Every component divided by `k`.
    pub open spec fn div_scalar_spec(self, k: T) -> Vec3<T> {
        Vec3 { x: self.x.over_spec(k), y: self.y.over_spec(k), z: self.z.over_spec(k) }
    }

    /// The sum of the component products, added from left to right.
    pub open spec fn dot_spec(a: Vec3<T>, b: Vec3<T>) -> T {
        a.x.times_spec(b.x).plus_spec(a.y.times_spec(b.y)).plus_spec(a.z.times_spec(b.z))
    }

    /// The product that `cross` computes. Its third component is
    /// `a.x * b.y - a.y * b.z`: it reads `b.z` where the textbook cross product
    /// reads `b.x`.
    pub open spec fn cross_spec(a: Vec3<T>, b: Vec3<T>) -> Vec3<T> {
        Vec3 {
            x: a.y.times_spec(b.z).minus_spec(a.z.times_spec(b.y)),
            y: a.z.times_spec(b.x).minus_spec(a.x.times_spec(b.z)),
            z: a.x.times_spec(b.y).minus_spec(a.y.times_spec(b.z)),
        }
    }

    /// The vector product of `a` and `b`, which stands at right angles to
    /// both: `(a.y*b.z - a.z*b.y, a.z*b.x - a.x*b.z, a.x*b.y - a.y*b.x)`.
    pub open spec fn vector_product_spec(a: Vec3<T>, b: Vec3<T>) -> Vec3<T> {
        Vec3 {
            x: a.y.times_spec(b.z).minus_spec(a.z.times_spec(b.y)),
            y: a.z.times_spec(b.x).minus_spec(a.x.times_spec(b.z)),
            z: a.x.times_spec(b.y).minus_spec(a.y.times_spec(b.x)),
        }
    }

    /// The square root of `dot(a, a)` where that is positive, zero elsewhere.
    pub open spec fn length_spec(a: Vec3<T>) -> T {
        let d = Self::dot_spec(a, a);
        if d.is_positive_spec() {
            d.sqrt_spec()
        } else {
            T::zero_spec()
        }
    }

    /// `a` divided by its length where that is positive, the zero vector
    /// elsewhere.
    pub open spec fn normalize_spec(a: Vec3<T>) -> Vec3<T> {
        let len = Self::length_spec(a);
        if len.is_positive_spec() {
            a.div_scalar_spec(len)
        } else {
            Self::empty_spec()
        }
    }

    /// A vector with the given coordinates.
    pub fn new(x: T, y: T, z: T) -> (r: Vec3<T>)
        ensures
            r == (Vec3 { x, y, z }),
    {
        Vec3 { x, y, z }
    }

    /// The zero vector.
    pub fn empty() -> (r: Vec3<T>)
        ensures
            r == Self::empty_spec(),
    {
        Vec3 { x: T::zero(), y: T::zero(), z: T::zero() }
    }

    /// The unit vector along the first axis.
    pub fn x() -> (r: Vec3<T>)
        ensures
            r == (Vec3 { x: T::one_spec(), y: T::zero_spec(), z: T::zero_spec() }),
    {
        Vec3 { x: T::one(), y: T::zero(), z: T::zero() }
    }

    /// The unit vector along the second axis.
    pub fn y() -> (r: Vec3<T>)
        ensures
            r == (Vec3 { x: T::zero_spec(), y: T::one_spec(), z: T::zero_spec() }),
    {
        Vec3 { x: T::zero(), y: T::one(), z: T::zero() }
    }

    /// The unit vector along the third axis.
    pub fn z() -> (r: Vec3<T>)
        ensures
            r == (Vec3 { x: T::zero_spec(), y: T::zero_spec(), z: T::one_spec() }),
    {
        Vec3 { x: T::zero(), y: T::zero(), z: T::one() }
    }

    /// The component at `index`; an index of three or more is a caller's error.
    pub fn index(self, index: usize) -> (r: T)
        requires
            index < 3,
        ensures
            r == self@[index as int],
    {
        if index == 0 {
            self.x
        } else if index == 1 {
            self.y
        } else {
            self.z
        }
    }

    /// `-self`.
    pub fn neg(self) -> (r: Vec3<T>)
        ensures
            r == self.neg_spec(),
    {
        Vec3 { x: self.x.negate(), y: self.y.negate(), z: self.z.negate() }
    }

    /// `self + other`, component by component.
    pub fn add(self, other: Vec3<T>) -> (r: Vec3<T>)
        ensures
            r == (Vec3 {
                x: self.x.plus_spec(other.x),
                y: self.y.plus_spec(other.y),
                z: self.z.plus_spec(other.z),
            }),
    {
        Vec3 { x: self.x.plus(other.x), y: self.y.plus(other.y), z: self.z.plus(other.z) }
    }

    /// `self += other`.
    pub fn add_assign(&mut self, other: Vec3<T>)
        ensures
            *final(self) == (Vec3 {
                x: old(self).x.plus_spec(other.x),
                y: old(self).y.plus_spec(other.y),
                z: old(self).z.plus_spec(other.z),
            }),
    {
        self.x = self.x.plus(other.x);
        self.y = self.y.plus(other.y);
        self.z = self.z.plus(other.z);
    }

    /// `self - other`, component by component.
    pub fn sub(self, other: Vec3<T>) -> (r: Vec3<T>)
        ensures
            r == self.sub_spec(other),
    {
        Vec3 { x: self.x.minus(other.x), y: self.y.minus(other.y), z: self.z.minus(other.z) }
    }

    /// `self -= other`.
    pub fn sub_assign(&mut self, other: Vec3<T>)
        ensures
            *final(self) == old(self).sub_spec(other),
    {
        self.x = self.x.minus(other.x);
        self.y = self.y.minus(other.y);
        self.z = self.z.minus(other.z);
    }

    /// `self * other`, component by component.
    pub fn mul(self, other: Vec3<T>) -> (r: Vec3<T>)
        ensures
            r == (Vec3 {
                x: self.x.times_spec(other.x),
                y: self.y.times_spec(other.y),
                z: self.z.times_spec(other.z),
            }),
    {
        Vec3 { x: self.x.times(other.x), y: self.y.times(other.y), z: self.z.times(other.z) }
    }

    /// `self *= other`, component by component.
    pub fn mul_assign(&mut self, other: Vec3<T>)
        ensures
            *final(self) == (Vec3 {
                x: old(self).x.times_spec(other.x),
                y: old(self).y.times_spec(other.y),
                z: old(self).z.times_spec(other.z),
            }),
    {
        self.x = self.x.times(other.x);
        self.y = self.y.times(other.y);
        self.z = self.z.times(other.z);
    }

    /// Every component multiplied by `k`.
    pub fn mul_scalar(self, k: T) -> (r: Vec3<T>)
        ensures
            r == (Vec3 {
                x: self.x.times_spec(k),
                y: self.y.times_spec(k),
                z: self.z.times_spec(k),
            }),
    {
        Vec3 { x: self.x.times(k), y: self.y.times(k), z: self.z.times(k) }
    }

    /// Multiplies every component by `k` in place.
    pub fn mul_assign_scalar(&mut self, k: T)
        ensures
            *final(self) == (Vec3 {
                x: old(self).x.times_spec(k),
                y: old(self).y.times_spec(k),
                z: old(self).z.times_spec(k),
            }),
    {
        self.x = self.x.times(k);
        self.y = self.y.times(k);
        self.z = self.z.times(k);
    }

    /// `self / other`, component by component. A zero component in `other`
    /// gives whatever quotient the number type has for it.
    pub fn div(self, other: Vec3<T>) -> (r: Vec3<T>)
        ensures
            r == (Vec3 {
                x: self.x.over_spec(other.x),
                y: self.y.over_spec(other.y),
                z: self.z.over_spec(other.z),
            }),
    {
        Vec3 { x: self.x.over(other.x), y: self.y.over(other.y), z: self.z.over(other.z) }
    }

    /// `self /= other`, component by component.
    pub fn div_assign(&mut self, other: Vec3<T>)
        ensures
            *final(self) == (Vec3 {
                x: old(self).x.over_spec(other.x),
                y: old(self).y.over_spec(other.y),
                z: old(self).z.over_spec(other.z),
            }),
    {
        self.x = self.x.over(other.x);
        self.y = self.y.over(other.y);
        self.z = self.z.over(other.z);
    }

    /// Every component divided by `k`.
    pub fn div_scalar(self, k: T) -> (r: Vec3<T>)
        ensures
            r == self.div_scalar_spec(k),
    {
        Vec3 { x: self.x.over(k), y: self.y.over(k), z: self.z.over(k) }
    }

    /// Divides every component by `k` in place.
    pub fn div_assign_scalar(&mut self, k: T)
        ensures
            *final(self) == old(self).div_scalar_spec(k),
    {
        self.x = self.x.over(k);
        self.y = self.y.over(k);
        self.z = self.z.over(k);
    }

    /// Whether the two vectors agree in every component, as the number type
    /// compares. No tolerance is applied.
    pub fn equals(self, other: Vec3<T>) -> (r: bool)
        ensures
            r == (self.x.equals_spec(other.x) && self.y.equals_spec(other.y)
                && self.z.equals_spec(other.z)),
    {
        self.x.equals(other.x) && self.y.equals(other.y) && self.z.equals(other.z)
    }

    /// The dot product.
    pub fn dot(a: Vec3<T>, b: Vec3<T>) -> (r: T)
        ensures
            r == Self::dot_spec(a, b),
    {
        a.x.times(b.x).plus(a.y.times(b.y)).plus(a.z.times(b.z))
    }

    /// The product described by [`Vec3::cross_spec`].
    pub fn cross(a: Vec3<T>, b: Vec3<T>) -> (r: Vec3<T>)
        ensures
            r == Self::cross_spec(a, b),
    {
        Vec3 {
            x: a.y.times(b.z).minus(a.z.times(b.y)),
            y: a.z.times(b.x).minus(a.x.times(b.z)),
            z: a.x.times(b.y).minus(a.y.times(b.z)),
        }
    }

    /// The vector product of `a` and `b`, which stands at right angles to
    /// both.
    pub fn vector_product(a: Vec3<T>, b: Vec3<T>) -> (r: Vec3<T>)
        ensures
            r == Self::vector_product_spec(a, b),
    {
        Vec3 {
            x: a.y.times(b.z).minus(a.z.times(b.y)),
            y: a.z.times(b.x).minus(a.x.times(b.z)),
            z: a.x.times(b.y).minus(a.y.times(b.x)),
        }
    }

    /// The Euclidean length, with zero for a vector whose `dot(a, a)` is not
    /// positive.
    pub fn length(a: Vec3<T>) -> (r: T)
        ensures
            r == Self::length_spec(a),
    {
        let dot_product = Self::dot(a, a);
        if dot_product.is_positive() {
            dot_product.sqrt()
        } else {
            T::zero()
        }
    }

    /// `a` scaled to unit length. A vector without positive length has no
    /// direction; the zero vector is returned for it.
    pub fn normalize(a: Vec3<T>) -> (r: Vec3<T>)
        ensures
            r == Self::normalize_spec(a),
    {
        let len = Self::length(a);
        if len.is_positive() {
            a.div_scalar(len)
        } else {
            Self::empty()
        }
    }
}

} // verus!
