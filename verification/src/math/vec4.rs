//! Four-component vectors.

use vstd::prelude::*;
use crate::math::scalar::Scalar;

verus! {

/// A vector of four components.
#[derive(Debug, PartialEq)]
pub struct Vec4<T> {
    pub x: T,
    pub y: T,
    pub z: T,
    pub w: T,
}

impl<T: Copy> Clone for Vec4<T> {
    fn clone(&self) -> (r: Self)
        ensures
            r == *self,
    {
        *self
    }
}

impl<T: Copy> Copy for Vec4<T> {

}

impl<T: Scalar> Vec4<T> {
    /// The components in order.
    pub open spec fn view(self) -> Seq<T> {
        seq![self.x, self.y, self.z, self.w]
    }

    /// `self` with the component at `index` replaced by `value`.
    pub open spec fn with_component(self, index: int, value: T) -> Vec4<T> {
        if index == 0 {
            Vec4 { x: value, ..self }
        } else if index == 1 {
            Vec4 { y: value, ..self }
        } else if index == 2 {
            Vec4 { z: value, ..self }
        } else {
            Vec4 { w: value, ..self }
        }
    }

    /// The vector whose components are all zero.
    pub open spec fn empty_spec() -> Vec4<T> {
        Vec4 { x: T::zero_spec(), y: T::zero_spec(), z: T::zero_spec(), w: T::zero_spec() }
    }

    /// Every component negated.
    pub open spec fn neg_spec(self) -> Vec4<T> {
        Vec4 {
            x: self.x.negate_spec(),
            y: self.y.negate_spec(),
            z: self.z.negate_spec(),
            w: self.w.negate_spec(),
        }
    }

    /// The component-wise sum `self + other`.
    pub open spec fn add_spec(self, other: Vec4<T>) -> Vec4<T> {
        Vec4 {
            x: self.x.plus_spec(other.x),
            y: self.y.plus_spec(other.y),
            z: self.z.plus_spec(other.z),
            w: self.w.plus_spec(other.w),
        }
    }

    /// The component-wise difference `self - other`.
    pub open spec fn sub_spec(self, other: Vec4<T>) -> Vec4<T> {
        Vec4 {
            x: self.x.minus_spec(other.x),
            y: self.y.minus_spec(other.y),
            z: self.z.minus_spec(other.z),
            w: self.w.minus_spec(other.w),
        }
    }

    /// Every component multiplied by `k`.
    pub open spec fn mul_scalar_spec(self, k: T) -> Vec4<T> {
        Vec4 {
            x: self.x.times_spec(k),
            y: self.y.times_spec(k),
            z: self.z.times_spec(k),
            w: self.w.times_spec(k),
        }
    }

    /// Every component divided by `k`.
    pub open spec fn div_scalar_spec(self, k: T) -> Vec4<T> {
        Vec4 {
            x: self.x.over_spec(k),
            y: self.y.over_spec(k),
            z: self.z.over_spec(k),
            w: self.w.over_spec(k),
        }
    }

    /// The sum of the component products, added from left to right.
    pub open spec fn dot_spec(a: Vec4<T>, b: Vec4<T>) -> T {
        a.x.times_spec(b.x).plus_spec(a.y.times_spec(b.y)).plus_spec(
            a.z.times_spec(b.z),
        ).plus_spec(a.w.times_spec(b.w))
    }

    /// The square root of `dot(a, a)` where that is positive, zero elsewhere.
    pub open spec fn length_spec(a: Vec4<T>) -> T {
        let d = Self::dot_spec(a, a);
        if d.is_positive_spec() {
            d.sqrt_spec()
        } else {
            T::zero_spec()
        }
    }

    /// `a` divided by its length where that is positive, the zero vector
    /// elsewhere.
    pub open spec fn normalize_spec(a: Vec4<T>) -> Vec4<T> {
        let len = Self::length_spec(a);
        if len.is_positive_spec() {
            a.div_scalar_spec(len)
        } else {
            Self::empty_spec()
        }
    }

    /// A vector with the given coordinates.
    pub fn new(x: T, y: T, z: T, w: T) -> (r: Vec4<T>)
        ensures
            r == (Vec4 { x, y, z, w }),
    {
        Vec4 { x, y, z, w }
    }

    /// The zero vector.
    pub fn empty() -> (r: Vec4<T>)
        ensures
            r == Self::empty_spec(),
    {
        Vec4 { x: T::zero(), y: T::zero(), z: T::zero(), w: T::zero() }
    }

    /// The unit vector along the first axis.
    pub fn x_axis() -> (r: Vec4<T>)
        ensures
            r == (Vec4 {
                x: T::one_spec(),
                y: T::zero_spec(),
                z: T::zero_spec(),
                w: T::zero_spec(),
            }),
    {
        Vec4 { x: T::one(), y: T::zero(), z: T::zero(), w: T::zero() }
    }

    /// The unit vector along the second axis.
    pub fn y_axis() -> (r: Vec4<T>)
        ensures
            r == (Vec4 {
                x: T::zero_spec(),
                y: T::one_spec(),
                z: T::zero_spec(),
                w: T::zero_spec(),
            }),
    {
        Vec4 { x: T::zero(), y: T::one(), z: T::zero(), w: T::zero() }
    }

    /// The unit vector along the third axis.
    pub fn z_axis() -> (r: Vec4<T>)
        ensures
            r == (Vec4 {
                x: T::zero_spec(),
                y: T::zero_spec(),
                z: T::one_spec(),
                w: T::zero_spec(),
            }),
    {
        Vec4 { x: T::zero(), y: T::zero(), z: T::one(), w: T::zero() }
    }

    /// The component at `index`; an index of four or more is a caller's error.
    pub fn index(self, index: usize) -> (r: T)
        requires
            index < 4,
        ensures
            r == self@[index as int],
    {
        if index == 0 {
            self.x
        } else if index == 1 {
            self.y
        } else if index == 2 {
            self.z
        } else {
            self.w
        }
    }

    /// A place for the component at `index`: what is written through it is the
    /// only change to the vector.
    pub fn index_mut(&mut self, index: usize) -> (r: &mut T)
        requires
            index < 4,
        ensures
            *r == old(self)@[index as int],
            *final(self) == old(self).with_component(index as int, *final(r)),
    {
        if index == 0 {
            &mut self.x
        } else if index == 1 {
            &mut self.y
        } else if index == 2 {
            &mut self.z
        } else {
            &mut self.w
        }
    }

    /// `-self`: every component negated.
    pub fn neg(self) -> (r: Vec4<T>)
        ensures
            r == self.neg_spec(),
    {
        Vec4 {
            x: self.x.negate(),
            y: self.y.negate(),
            z: self.z.negate(),
            w: self.w.negate(),
        }
    }

    /// `self + other`, component by component.
    pub fn add(self, other: Vec4<T>) -> (r: Vec4<T>)
        ensures
            r == self.add_spec(other),
    {
        Vec4 {
            x: self.x.plus(other.x),
            y: self.y.plus(other.y),
            z: self.z.plus(other.z),
            w: self.w.plus(other.w),
        }
    }

    /// `self += other`.
    pub fn add_assign(&mut self, other: Vec4<T>)
        ensures
            *final(self) == old(self).add_spec(other),
    {
        self.x = self.x.plus(other.x);
        self.y = self.y.plus(other.y);
        self.z = self.z.plus(other.z);
        self.w = self.w.plus(other.w);
    }

    /// `self - other`, component by component.
    pub fn sub(self, other: Vec4<T>) -> (r: Vec4<T>)
        ensures
            r == self.sub_spec(other),
    {
        Vec4 {
            x: self.x.minus(other.x),
            y: self.y.minus(other.y),
            z: self.z.minus(other.z),
            w: self.w.minus(other.w),
        }
    }

    /// `self -= other`.
    pub fn sub_assign(&mut self, other: Vec4<T>)
        ensures
            *final(self) == old(self).sub_spec(other),
    {
        self.x = self.x.minus(other.x);
        self.y = self.y.minus(other.y);
        self.z = self.z.minus(other.z);
        self.w = self.w.minus(other.w);
    }

    /// `self * other`, component by component.
    pub fn mul(self, other: Vec4<T>) -> (r: Vec4<T>)
        ensures
            r == (Vec4 {
                x: self.x.times_spec(other.x),
                y: self.y.times_spec(other.y),
                z: self.z.times_spec(other.z),
                w: self.w.times_spec(other.w),
            }),
    {
        Vec4 {
            x: self.x.times(other.x),
            y: self.y.times(other.y),
            z: self.z.times(other.z),
            w: self.w.times(other.w),
        }
    }

    /// `self *= other`, component by component.
    pub fn mul_assign(&mut self, other: Vec4<T>)
        ensures
            *final(self) == (Vec4 {
                x: old(self).x.times_spec(other.x),
                y: old(self).y.times_spec(other.y),
                z: old(self).z.times_spec(other.z),
                w: old(self).w.times_spec(other.w),
            }),
    {
        self.x = self.x.times(other.x);
        self.y = self.y.times(other.y);
        self.z = self.z.times(other.z);
        self.w = self.w.times(other.w);
    }

    /// Every component multiplied by `k`.
    pub fn mul_scalar(self, k: T) -> (r: Vec4<T>)
        ensures
            r == self.mul_scalar_spec(k),
    {
        Vec4 { x: self.x.times(k), y: self.y.times(k), z: self.z.times(k), w: self.w.times(k) }
    }

    /// Multiplies every component by `k` in place.
    pub fn mul_assign_scalar(&mut self, k: T)
        ensures
            *final(self) == old(self).mul_scalar_spec(k),
    {
        self.x = self.x.times(k);
        self.y = self.y.times(k);
        self.z = self.z.times(k);
        self.w = self.w.times(k);
    }

    /// `self / other`, component by component. A zero component in `other`
    /// gives whatever quotient the number type has for it.
    pub fn div(self, other: Vec4<T>) -> (r: Vec4<T>)
        ensures
            r == (Vec4 {
                x: self.x.over_spec(other.x),
                y: self.y.over_spec(other.y),
                z: self.z.over_spec(other.z),
                w: self.w.over_spec(other.w),
            }),
    {
        Vec4 {
            x: self.x.over(other.x),
            y: self.y.over(other.y),
            z: self.z.over(other.z),
            w: self.w.over(other.w),
        }
    }

    /// `self /= other`, component by component.
    pub fn div_assign(&mut self, other: Vec4<T>)
        ensures
            *final(self) == (Vec4 {
                x: old(self).x.over_spec(other.x),
                y: old(self).y.over_spec(other.y),
                z: old(self).z.over_spec(other.z),
                w: old(self).w.over_spec(other.w),
            }),
    {
        self.x = self.x.over(other.x);
        self.y = self.y.over(other.y);
        self.z = self.z.over(other.z);
        self.w = self.w.over(other.w);
    }

    /// Every component divided by `k`.
    pub fn div_scalar(self, k: T) -> (r: Vec4<T>)
        ensures
            r == self.div_scalar_spec(k),
    {
        Vec4 { x: self.x.over(k), y: self.y.over(k), z: self.z.over(k), w: self.w.over(k) }
    }

    /// Divides every component by `k` in place.
    pub fn div_assign_scalar(&mut self, k: T)
        ensures
            *final(self) == old(self).div_scalar_spec(k),
    {
        self.x = self.x.over(k);
        self.y = self.y.over(k);
        self.z = self.z.over(k);
        self.w = self.w.over(k);
    }

    /// Whether the two vectors agree in every component, as the number type
    /// compares. No tolerance is applied.
    pub fn equals(self, other: Vec4<T>) -> (r: bool)
        ensures
            r == (self.x.equals_spec(other.x) && self.y.equals_spec(other.y)
                && self.z.equals_spec(other.z) && self.w.equals_spec(other.w)),
    {
        self.x.equals(other.x) && self.y.equals(other.y) && self.z.equals(other.z)
            && self.w.equals(other.w)
    }

    /// The dot product.
    pub fn dot(a: Vec4<T>, b: Vec4<T>) -> (r: T)
        ensures
            r == Self::dot_spec(a, b),
    {
        a.x.times(b.x).plus(a.y.times(b.y)).plus(a.z.times(b.z)).plus(a.w.times(b.w))
    }

    /// The Euclidean length, with zero for a vector whose `dot(a, a)` is not
    /// positive.
    pub fn length(a: Vec4<T>) -> (r: T)
        ensures
            r == Self::length_spec(a),
    {
        let dot_product = Self::dot(a, a);
        if dot_product.is_positive() {
            dot_product.sqrt()
        } else {
            T::zero()
        }
    }

    /// `a` scaled to unit length. A vector without positive length has no
    /// direction; the zero vector is returned for it.
    pub fn normalize(a: Vec4<T>) -> (r: Vec4<T>)
        ensures
            r == Self::normalize_spec(a),
    {
        let len = Self::length(a);
        if len.is_positive() {
            a.div_scalar(len)
        } else {
            Self::empty()
        }
    }
}

} // verus!
