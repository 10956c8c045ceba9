//! 4x4 matrices, stored column by column.

use vstd::prelude::*;
use crate::math::angle::{
    half_angle_radians, opening_angle, opening_angle_spec, vertical_half_tangent,
};
use crate::math::scalar::Scalar;
use crate::math::transform::{translation, translation_spec};
use crate::math::vec3::Vec3;
use crate::math::vec4::Vec4;

verus! {

/// A 4x4 matrix. `m[c]` is column `c`, and the component `r` of `m[c]` is the
/// entry in row `r` of that column, which is the layout a graphics driver reads.
#[derive(Debug, PartialEq)]
pub struct Mat4<T> {
    pub m: [Vec4<T>; 4],
}

impl<T: Copy> Clone for Mat4<T> {
    fn clone(&self) -> (r: Self)
        ensures
            r == *self,
    {
        *self
    }
}

impl<T: Copy> Copy for Mat4<T> {

}

/// The three indices below four other than `i`, in rising order.
pub open spec fn others_spec(i: int) -> (int, int, int) {
    if i == 0 {
        (1, 2, 3)
    } else if i == 1 {
        (0, 2, 3)
    } else if i == 2 {
        (0, 1, 3)
    } else {
        (0, 1, 2)
    }
}

fn others(i: usize) -> (r: (usize, usize, usize))
    requires
        i < 4,
    ensures
        (r.0 as int, r.1 as int, r.2 as int) == others_spec(i as int),
        r.0 < 4,
        r.1 < 4,
        r.2 < 4,
{
    if i == 0 {
        (1, 2, 3)
    } else if i == 1 {
        (0, 2, 3)
    } else if i == 2 {
        (0, 1, 3)
    } else {
        (0, 1, 2)
    }
}

impl<T: Scalar> Mat4<T> {
    /// The entry in column `c` and row `r`.
    pub open spec fn entry(self, c: int, r: int) -> T {
        self.m[c]@[r]
    }

    /// The sixteen entries, column after column.
    pub open spec fn view(self) -> Seq<T> {
        Seq::new(16, |i: int| self.entry(i / 4, i % 4))
    }

    /// Row `r`, read across the four columns.
    pub open spec fn row_spec(self, r: int) -> Vec4<T> {
        Vec4 {
            x: self.entry(0, r),
            y: self.entry(1, r),
            z: self.entry(2, r),
            w: self.entry(3, r),
        }
    }

    /// The matrix with the given columns.
    pub open spec fn from_vec4_spec(
        col1: Vec4<T>,
        col2: Vec4<T>,
        col3: Vec4<T>,
        col4: Vec4<T>,
    ) -> Mat4<T> {
        Mat4 { m: [col1, col2, col3, col4] }
    }

    /// The matrix whose entries are all zero.
    pub open spec fn empty_spec() -> Mat4<T> {
        Mat4 {
            m: [Vec4::empty_spec(), Vec4::empty_spec(), Vec4::empty_spec(), Vec4::empty_spec()],
        }
    }

    /// One on the diagonal, zero elsewhere.
    pub open spec fn identity_spec() -> Mat4<T> {
        let o = T::one_spec();
        let z = T::zero_spec();
        Mat4 {
            m: [
                Vec4 { x: o, y: z, z: z, w: z },
                Vec4 { x: z, y: o, z: z, w: z },
                Vec4 { x: z, y: z, z: o, w: z },
                Vec4 { x: z, y: z, z: z, w: o },
            ],
        }
    }

    /// The entry-wise sum.
    pub open spec fn add_spec(self, other: Mat4<T>) -> Mat4<T> {
        Mat4 {
            m: [
                self.m[0].add_spec(other.m[0]),
                self.m[1].add_spec(other.m[1]),
                self.m[2].add_spec(other.m[2]),
                self.m[3].add_spec(other.m[3]),
            ],
        }
    }

    /// The entry-wise difference.
    pub open spec fn sub_spec(self, other: Mat4<T>) -> Mat4<T> {
        Mat4 {
            m: [
                self.m[0].sub_spec(other.m[0]),
                self.m[1].sub_spec(other.m[1]),
                self.m[2].sub_spec(other.m[2]),
                self.m[3].sub_spec(other.m[3]),
            ],
        }
    }

    /// Every entry multiplied by `k`.
    pub open spec fn mul_scalar_spec(self, k: T) -> Mat4<T> {
        Mat4 {
            m: [
                self.m[0].mul_scalar_spec(k),
                self.m[1].mul_scalar_spec(k),
                self.m[2].mul_scalar_spec(k),
                self.m[3].mul_scalar_spec(k),
            ],
        }
    }

    /// Every entry divided by `k`.
    pub open spec fn div_scalar_spec(self, k: T) -> Mat4<T> {
        Mat4 {
            m: [
                self.m[0].div_scalar_spec(k),
                self.m[1].div_scalar_spec(k),
                self.m[2].div_scalar_spec(k),
                self.m[3].div_scalar_spec(k),
            ],
        }
    }

    /// The entry in column `c` and row `r` of the product: the sum over `k` of
    /// `a[c][k] * b[k][r]`, accumulated from zero with `k` rising.
    pub open spec fn product_entry(a: Mat4<T>, b: Mat4<T>, c: int, r: int) -> T {
        T::zero_spec().plus_spec(a.entry(c, 0).times_spec(b.entry(0, r))).plus_spec(
            a.entry(c, 1).times_spec(b.entry(1, r)),
        ).plus_spec(a.entry(c, 2).times_spec(b.entry(2, r))).plus_spec(
            a.entry(c, 3).times_spec(b.entry(3, r)),
        )
    }

    /// Column `c` of the product.
    pub open spec fn product_column(a: Mat4<T>, b: Mat4<T>, c: int) -> Vec4<T> {
        Vec4 {
            x: Self::product_entry(a, b, c, 0),
            y: Self::product_entry(a, b, c, 1),
            z: Self::product_entry(a, b, c, 2),
            w: Self::product_entry(a, b, c, 3),
        }
    }

    /// The product `self * other`. Applied to a vector it acts as `self`
    /// followed by `other`.
    pub open spec fn mul_spec(self, other: Mat4<T>) -> Mat4<T> {
        Mat4 {
            m: [
                Self::product_column(self, other, 0),
                Self::product_column(self, other, 1),
                Self::product_column(self, other, 2),
                Self::product_column(self, other, 3),
            ],
        }
    }

    /// The matrix applied to a column vector: component `r` of the result is the
    /// dot product of row `r` with `v`.
    pub open spec fn mul_vec4_spec(self, v: Vec4<T>) -> Vec4<T> {
        Vec4 {
            x: Vec4::dot_spec(self.row_spec(0), v),
            y: Vec4::dot_spec(self.row_spec(1), v),
            z: Vec4::dot_spec(self.row_spec(2), v),
            w: Vec4::dot_spec(self.row_spec(3), v),
        }
    }

    /// Rows and columns exchanged.
    pub open spec fn transpose_spec(self) -> Mat4<T> {
        Mat4 { m: [self.row_spec(0), self.row_spec(1), self.row_spec(2), self.row_spec(3)] }
    }

    /// The determinant of the 3x3 matrix that is left when column `c` and row
    /// `r` are struck out, expanded along its first row.
    pub open spec fn minor_spec(self, c: int, r: int) -> T {
        let (c0, c1, c2) = others_spec(c);
        let (r0, r1, r2) = others_spec(r);
        self.entry(c0, r0).times_spec(
            self.entry(c1, r1).times_spec(self.entry(c2, r2)).minus_spec(
                self.entry(c2, r1).times_spec(self.entry(c1, r2)),
            ),
        ).minus_spec(
            self.entry(c1, r0).times_spec(
                self.entry(c0, r1).times_spec(self.entry(c2, r2)).minus_spec(
                    self.entry(c2, r1).times_spec(self.entry(c0, r2)),
                ),
            ),
        ).plus_spec(
            self.entry(c2, r0).times_spec(
                self.entry(c0, r1).times_spec(self.entry(c1, r2)).minus_spec(
                    self.entry(c1, r1).times_spec(self.entry(c0, r2)),
                ),
            ),
        )
    }

    /// The minor with the sign of its place: kept where `c + r` is even,
    /// negated where it is odd.
    pub open spec fn cofactor_spec(self, c: int, r: int) -> T {
        if (c + r) % 2 == 0 {
            self.minor_spec(c, r)
        } else {
            self.minor_spec(c, r).negate_spec()
        }
    }

    /// The adjugate: the entry in column `c` and row `r` is the cofactor of
    /// column `r` and row `c`.
    pub open spec fn adjugate_spec(self) -> Mat4<T> {
        Mat4 {
            m: [
                Vec4 {
                    x: self.cofactor_spec(0, 0),
                    y: self.cofactor_spec(1, 0),
                    z: self.cofactor_spec(2, 0),
                    w: self.cofactor_spec(3, 0),
                },
                Vec4 {
                    x: self.cofactor_spec(0, 1),
                    y: self.cofactor_spec(1, 1),
                    z: self.cofactor_spec(2, 1),
                    w: self.cofactor_spec(3, 1),
                },
                Vec4 {
                    x: self.cofactor_spec(0, 2),
                    y: self.cofactor_spec(1, 2),
                    z: self.cofactor_spec(2, 2),
                    w: self.cofactor_spec(3, 2),
                },
                Vec4 {
                    x: self.cofactor_spec(0, 3),
                    y: self.cofactor_spec(1, 3),
                    z: self.cofactor_spec(2, 3),
                    w: self.cofactor_spec(3, 3),
                },
            ],
        }
    }

    /// The determinant, expanded along the first column.
    pub open spec fn determinant_spec(self) -> T {
        self.entry(0, 0).times_spec(self.cofactor_spec(0, 0)).plus_spec(
            self.entry(0, 1).times_spec(self.cofactor_spec(0, 1)),
        ).plus_spec(self.entry(0, 2).times_spec(self.cofactor_spec(0, 2))).plus_spec(
            self.entry(0, 3).times_spec(self.cofactor_spec(0, 3)),
        )
    }

    /// The adjugate with every entry divided by the determinant.
    pub open spec fn inverse_spec(self) -> Mat4<T> {
        self.adjugate_spec().div_scalar_spec(self.determinant_spec())
    }

    /// The box projection for the given planes: the box between `l` and `r`,
    /// `b` and `t`, and the depths `n` and `f` in front of a camera that looks
    /// down the negative third axis, is mapped onto the cube from -1 to 1; the
    /// near plane goes to depth -1 and the far plane to depth 1.
    pub open spec fn ortho_spec(l: T, r: T, b: T, t: T, n: T, f: T) -> Mat4<T> {
        let z = T::zero_spec();
        let one = T::one_spec();
        let two = one.plus_spec(one);
        Mat4 {
            m: [
                Vec4 { x: two.over_spec(r.minus_spec(l)), y: z, z: z, w: z },
                Vec4 { x: z, y: two.over_spec(t.minus_spec(b)), z: z, w: z },
                Vec4 { x: z, y: z, z: two.negate_spec().over_spec(f.minus_spec(n)), w: z },
                Vec4 {
                    x: r.plus_spec(l).negate_spec().over_spec(r.minus_spec(l)),
                    y: t.plus_spec(b).negate_spec().over_spec(t.minus_spec(b)),
                    z: f.plus_spec(n).negate_spec().over_spec(f.minus_spec(n)),
                    w: one,
                },
            ],
        }
    }

    /// The perspective projection for a camera that looks down the negative
    /// third axis, given the tangent of half its vertical opening angle, the
    /// width of the picture over its height, and the depths of the near and far
    /// planes. The near plane goes to depth -1 and the far plane to depth 1.
    pub open spec fn persp_from_half_tan_spec(tan_half_fovy: T, aspect: T, n: T, f: T) -> Mat4<T> {
        let z = T::zero_spec();
        let one = T::one_spec();
        let two = one.plus_spec(one);
        Mat4 {
            m: [
                Vec4 { x: one.over_spec(aspect.times_spec(tan_half_fovy)), y: z, z: z, w: z },
                Vec4 { x: z, y: one.over_spec(tan_half_fovy), z: z, w: z },
                Vec4 {
                    x: z,
                    y: z,
                    z: f.plus_spec(n).negate_spec().over_spec(f.minus_spec(n)),
                    w: one.negate_spec(),
                },
                Vec4 {
                    x: z,
                    y: z,
                    z: two.times_spec(f).times_spec(n).negate_spec().over_spec(f.minus_spec(n)),
                    w: z,
                },
            ],
        }
    }

    /// The rotation that turns the world so that the camera's right, its up and
    /// the direction against its view become the three axes.
    pub open spec fn look_at_basis_spec(right: Vec3<T>, up: Vec3<T>, forward: Vec3<T>) -> Mat4<T> {
        let z = T::zero_spec();
        Mat4 {
            m: [
                Vec4 { x: right.x, y: up.x, z: forward.x.negate_spec(), w: z },
                Vec4 { x: right.y, y: up.y, z: forward.y.negate_spec(), w: z },
                Vec4 { x: right.z, y: up.z, z: forward.z.negate_spec(), w: z },
                Vec4 { x: z, y: z, z: z, w: T::one_spec() },
            ],
        }
    }

    /// The view matrix of a camera at `cam_pos` that looks at `target`: the
    /// world is moved by `-cam_pos` and then turned into the camera's axes. The
    /// forward axis is the unit vector towards the target, the right axis the
    /// normalized vector product of forward and `up`, and the camera's up axis
    /// the normalized vector product of right and forward.
    pub open spec fn look_at_spec(cam_pos: Vec3<T>, target: Vec3<T>, up: Vec3<T>) -> Mat4<T> {
        let f = Vec3::normalize_spec(target.sub_spec(cam_pos));
        let r = Vec3::normalize_spec(Vec3::vector_product_spec(f, up));
        let u = Vec3::normalize_spec(Vec3::vector_product_spec(r, f));
        translation_spec(cam_pos.neg_spec()).mul_spec(Self::look_at_basis_spec(r, u, f))
    }

    fn minor(&self, c: usize, r: usize) -> (res: T)
        requires
            c < 4,
            r < 4,
        ensures
            res == self.minor_spec(c as int, r as int),
    {
        let (c0, c1, c2) = others(c);
        let (r0, r1, r2) = others(r);
        let a = self.m[c0];
        let b = self.m[c1];
        let d = self.m[c2];
        let first = a.index(r0).times(
            b.index(r1).times(d.index(r2)).minus(d.index(r1).times(b.index(r2))),
        );
        let second = b.index(r0).times(
            a.index(r1).times(d.index(r2)).minus(d.index(r1).times(a.index(r2))),
        );
        let third = d.index(r0).times(
            a.index(r1).times(b.index(r2)).minus(b.index(r1).times(a.index(r2))),
        );
        first.minus(second).plus(third)
    }

    fn cofactor(&self, c: usize, r: usize) -> (res: T)
        requires
            c < 4,
            r < 4,
        ensures
            res == self.cofactor_spec(c as int, r as int),
    {
        let minor = self.minor(c, r);
        if (c + r) % 2 == 0 {
            minor
        } else {
            minor.negate()
        }
    }

    fn adjugate_column(&self, c: usize) -> (res: Vec4<T>)
        requires
            c < 4,
        ensures
            res == self.adjugate_spec().m[c as int],
    {
        Vec4 {
            x: self.cofactor(0, c),
            y: self.cofactor(1, c),
            z: self.cofactor(2, c),
            w: self.cofactor(3, c),
        }
    }

    /// The adjugate of `m`: the transposed matrix of cofactors.
    pub fn adjugate(m: Mat4<T>) -> (r: Mat4<T>)
        ensures
            r == m.adjugate_spec(),
    {
        let r = Mat4 {
            m: [
                m.adjugate_column(0),
                m.adjugate_column(1),
                m.adjugate_column(2),
                m.adjugate_column(3),
            ],
        };
        assert(r.m =~= m.adjugate_spec().m);
        r
    }

    /// The determinant of `m`.
    pub fn determinant(m: Mat4<T>) -> (r: T)
        ensures
            r == m.determinant_spec(),
    {
        let c = m.m[0];
        c.x.times(m.cofactor(0, 0)).plus(c.y.times(m.cofactor(0, 1))).plus(
            c.z.times(m.cofactor(0, 2)),
        ).plus(c.w.times(m.cofactor(0, 3)))
    }

    /// The inverse of `m` by cofactor expansion: the adjugate divided by the
    /// determinant. A singular matrix is not turned away; its entries are the
    /// quotients that the number type has for a zero divisor.
    pub fn inverse(m: Mat4<T>) -> (r: Mat4<T>)
        ensures
            r == m.inverse_spec(),
    {
        let det = Self::determinant(m);
        Self::adjugate(m).div_scalar(det)
    }

    /// Every entry divided by `k`.
    pub fn div_scalar(self, k: T) -> (r: Mat4<T>)
        ensures
            r == self.div_scalar_spec(k),
    {
        let r = Mat4 {
            m: [
                self.m[0].div_scalar(k),
                self.m[1].div_scalar(k),
                self.m[2].div_scalar(k),
                self.m[3].div_scalar(k),
            ],
        };
        assert(r.m =~= self.div_scalar_spec(k).m);
        r
    }

    /// The matrix with the given entries, which are listed as a matrix is
    /// written down: row after row, the four columns of each row from left to
    /// right.
    pub fn new(
        a11: T,
        a21: T,
        a31: T,
        a41: T,
        a12: T,
        a22: T,
        a32: T,
        a42: T,
        a13: T,
        a23: T,
        a33: T,
        a43: T,
        a14: T,
        a24: T,
        a34: T,
        a44: T,
    ) -> (r: Mat4<T>)
        ensures
            r.row_spec(0) == (Vec4 { x: a11, y: a21, z: a31, w: a41 }),
            r.row_spec(1) == (Vec4 { x: a12, y: a22, z: a32, w: a42 }),
            r.row_spec(2) == (Vec4 { x: a13, y: a23, z: a33, w: a43 }),
            r.row_spec(3) == (Vec4 { x: a14, y: a24, z: a34, w: a44 }),
    {
        Mat4 {
            m: [
                Vec4::new(a11, a12, a13, a14),
                Vec4::new(a21, a22, a23, a24),
                Vec4::new(a31, a32, a33, a34),
                Vec4::new(a41, a42, a43, a44),
            ],
        }
    }

    /// The sixteen entries as one array, column after column: the block that a
    /// graphics driver takes for a matrix.
    pub fn as_ptr(&self) -> (r: [T; 16])
        ensures
            r@ == self@,
    {
        let a = self.m[0];
        let b = self.m[1];
        let c = self.m[2];
        let d = self.m[3];
        let r = [a.x, a.y, a.z, a.w, b.x, b.y, b.z, b.w, c.x, c.y, c.z, c.w, d.x, d.y, d.z, d.w];
        assert(r@ =~= self@);
        r
    }

    /// The matrix with the given columns.
    pub fn from_vec4(col1: Vec4<T>, col2: Vec4<T>, col3: Vec4<T>, col4: Vec4<T>) -> (r: Mat4<T>)
        ensures
            r == Self::from_vec4_spec(col1, col2, col3, col4),
    {
        Mat4 { m: [col1, col2, col3, col4] }
    }

    /// The zero matrix.
    pub fn empty() -> (r: Mat4<T>)
        ensures
            r == Self::empty_spec(),
    {
        Mat4 { m: [Vec4::empty(), Vec4::empty(), Vec4::empty(), Vec4::empty()] }
    }

    /// The identity matrix.
    pub fn identity() -> (r: Mat4<T>)
        ensures
            r == Self::identity_spec(),
    {
        let o = T::one();
        let z = T::zero();
        Mat4 {
            m: [
                Vec4::new(o, z, z, z),
                Vec4::new(z, o, z, z),
                Vec4::new(z, z, o, z),
                Vec4::new(z, z, z, o),
            ],
        }
    }

    /// Column `column`; an index of four or more is a caller's error.
    pub fn index(&self, column: usize) -> (r: Vec4<T>)
        requires
            column < 4,
        ensures
            r == self.m[column as int],
    {
        self.m[column]
    }

    /// A place for column `column`: what is written through it is the only
    /// change to the matrix.
    pub fn index_mut(&mut self, column: usize) -> (r: &mut Vec4<T>)
        requires
            column < 4,
        ensures
            *r == old(self).m[column as int],
            final(self).m@ == old(self).m@.update(column as int, *final(r)),
    {
        &mut self.m[column]
    }

    /// `self + other`, entry by entry.
    pub fn add(self, other: Mat4<T>) -> (r: Mat4<T>)
        ensures
            r == self.add_spec(other),
    {
        Mat4 {
            m: [
                self.m[0].add(other.m[0]),
                self.m[1].add(other.m[1]),
                self.m[2].add(other.m[2]),
                self.m[3].add(other.m[3]),
            ],
        }
    }

    /// `self += other`.
    pub fn add_assign(&mut self, other: Mat4<T>)
        ensures
            *final(self) == old(self).add_spec(other),
    {
        *self = self.add(other);
    }

    /// `self - other`, entry by entry.
    pub fn sub(self, other: Mat4<T>) -> (r: Mat4<T>)
        ensures
            r == self.sub_spec(other),
    {
        Mat4 {
            m: [
                self.m[0].sub(other.m[0]),
                self.m[1].sub(other.m[1]),
                self.m[2].sub(other.m[2]),
                self.m[3].sub(other.m[3]),
            ],
        }
    }

    /// `self -= other`.
    pub fn sub_assign(&mut self, other: Mat4<T>)
        ensures
            *final(self) == old(self).sub_spec(other),
    {
        *self = self.sub(other);
    }

    fn entry_of_product(&self, other: &Mat4<T>, c: usize, r: usize) -> (res: T)
        requires
            c < 4,
            r < 4,
        ensures
            res == Self::product_entry(*self, *other, c as int, r as int),
    {
        let col = self.m[c];
        let mut res = T::zero();
        res = res.plus(col.x.times(other.m[0].index(r)));
        res = res.plus(col.y.times(other.m[1].index(r)));
        res = res.plus(col.z.times(other.m[2].index(r)));
        res = res.plus(col.w.times(other.m[3].index(r)));
        res
    }

    fn column_of_product(&self, other: &Mat4<T>, c: usize) -> (res: Vec4<T>)
        requires
            c < 4,
        ensures
            res == Self::product_column(*self, *other, c as int),
    {
        Vec4 {
            x: self.entry_of_product(other, c, 0),
            y: self.entry_of_product(other, c, 1),
            z: self.entry_of_product(other, c, 2),
            w: self.entry_of_product(other, c, 3),
        }
    }

    /// The matrix product: the entry in column `c` and row `r` of the result
    /// is the sum over `k` of `self[c][k] * other[k][r]`.
    pub fn mul(self, other: Mat4<T>) -> (r: Mat4<T>)
        ensures
            r == self.mul_spec(other),
            forall|c: int, row: int|
                0 <= c < 4 && 0 <= row < 4 ==> #[trigger] r.entry(c, row) == Self::product_entry(
                    self,
                    other,
                    c,
                    row,
                ),
    {
        Mat4 {
            m: [
                self.column_of_product(&other, 0),
                self.column_of_product(&other, 1),
                self.column_of_product(&other, 2),
                self.column_of_product(&other, 3),
            ],
        }
    }

    /// `self = self * other`.
    pub fn mul_assign(&mut self, other: Mat4<T>)
        ensures
            *final(self) == old(self).mul_spec(other),
    {
        *self = self.mul(other);
    }

    /// Every entry multiplied by `k`.
    pub fn mul_scalar(self, k: T) -> (r: Mat4<T>)
        ensures
            r == self.mul_scalar_spec(k),
    {
        Mat4 {
            m: [
                self.m[0].mul_scalar(k),
                self.m[1].mul_scalar(k),
                self.m[2].mul_scalar(k),
                self.m[3].mul_scalar(k),
            ],
        }
    }

    /// Multiplies every entry by `k` in place.
    pub fn mul_assign_scalar(&mut self, k: T)
        ensures
            *final(self) == old(self).mul_scalar_spec(k),
    {
        *self = self.mul_scalar(k);
    }

    fn row(&self, r: usize) -> (res: Vec4<T>)
        requires
            r < 4,
        ensures
            res == self.row_spec(r as int),
    {
        Vec4 {
            x: self.m[0].index(r),
            y: self.m[1].index(r),
            z: self.m[2].index(r),
            w: self.m[3].index(r),
        }
    }

    /// The matrix applied to the column vector `v`.
    pub fn mul_vec4(self, v: Vec4<T>) -> (r: Vec4<T>)
        ensures
            r == self.mul_vec4_spec(v),
    {
        Vec4 {
            x: Vec4::dot(self.row(0), v),
            y: Vec4::dot(self.row(1), v),
            z: Vec4::dot(self.row(2), v),
            w: Vec4::dot(self.row(3), v),
        }
    }

    /// `self * inverse(other)`.
    pub fn div(self, other: Mat4<T>) -> (r: Mat4<T>)
        ensures
            r == self.mul_spec(other.inverse_spec()),
    {
        self.mul(Self::inverse(other))
    }

    /// `self = self * inverse(other)`.
    pub fn div_assign(&mut self, other: Mat4<T>)
        ensures
            *final(self) == old(self).mul_spec(other.inverse_spec()),
    {
        *self = self.div(other);
    }

    /// Divides every entry by `k` in place.
    pub fn div_assign_scalar(&mut self, k: T)
        ensures
            *final(self) == old(self).div_scalar_spec(k),
    {
        *self = self.div_scalar(k);
    }

    /// The box projection described by [`Mat4::ortho_spec`]. Planes that
    /// coincide are not turned away: the entries are then the quotients that
    /// the number type has for a zero divisor.
    pub fn ortho(l: T, r: T, b: T, t: T, n: T, f: T) -> (res: Mat4<T>)
        ensures
            res == Self::ortho_spec(l, r, b, t, n, f),
    {
        let z = T::zero();
        let one = T::one();
        let two = one.plus(one);
        Mat4 {
            m: [
                Vec4::new(two.over(r.minus(l)), z, z, z),
                Vec4::new(z, two.over(t.minus(b)), z, z),
                Vec4::new(z, z, two.negate().over(f.minus(n)), z),
                Vec4::new(
                    r.plus(l).negate().over(r.minus(l)),
                    t.plus(b).negate().over(t.minus(b)),
                    f.plus(n).negate().over(f.minus(n)),
                    one,
                ),
            ],
        }
    }

    /// The perspective projection described by
    /// [`Mat4::persp_from_half_tan_spec`].
    pub fn persp_from_half_tan(tan_half_fovy: T, aspect: T, n: T, f: T) -> (res: Mat4<T>)
        ensures
            res == Self::persp_from_half_tan_spec(tan_half_fovy, aspect, n, f),
    {
        let z = T::zero();
        let one = T::one();
        let two = one.plus(one);
        Mat4 {
            m: [
                Vec4::new(one.over(aspect.times(tan_half_fovy)), z, z, z),
                Vec4::new(z, one.over(tan_half_fovy), z, z),
                Vec4::new(z, z, f.plus(n).negate().over(f.minus(n)), one.negate()),
                Vec4::new(z, z, two.times(f).times(n).negate().over(f.minus(n)), z),
            ],
        }
    }

    /// The perspective projection for a horizontal opening angle of `fov_x`
    /// degrees. The steps are those of the module `angle`: the tangent of
    /// [`half_angle_radians`] of `fov_x` is turned into the vertical one by
    /// [`vertical_half_tangent`], its arctangent into the vertical opening
    /// angle by [`opening_angle`], and the tangent of [`half_angle_radians`] of
    /// that angle is handed to [`Mat4::persp_from_half_tan`]. The tangents and
    /// the arctangent are the number type's, whose results this crate does not
    /// name: the matrix is the one for the tangent that came back.
    pub fn persp(fov_x: T, aspect: T, n: T, f: T) -> (res: Mat4<T>)
        ensures
            exists|tan_half_fovy: T|
                res == Self::persp_from_half_tan_spec(tan_half_fovy, aspect, n, f),
    {
        let fov_y = hfov_to_vfov(aspect, fov_x);
        let tan_half_fovy = half_angle_radians(fov_y).tan();
        Self::persp_from_half_tan(tan_half_fovy, aspect, n, f)
    }

    /// The same box projection as [`Mat4::ortho`].
    pub fn frustrum(l: T, r: T, b: T, t: T, n: T, f: T) -> (res: Mat4<T>)
        ensures
            res == Self::ortho_spec(l, r, b, t, n, f),
    {
        Self::ortho(l, r, b, t, n, f)
    }

    /// The view matrix of a camera at `cam_pos` that looks at `target`, with
    /// `up` giving the side that is to be up in the picture.
    pub fn look_at(cam_pos: Vec3<T>, target: Vec3<T>, up: Vec3<T>) -> (res: Mat4<T>)
        ensures
            res == Self::look_at_spec(cam_pos, target, up),
    {
        let f = Vec3::normalize(target.sub(cam_pos));
        let r = Vec3::normalize(Vec3::vector_product(f, up));
        let u = Vec3::normalize(Vec3::vector_product(r, f));
        let z = T::zero();
        let basis = Mat4 {
            m: [
                Vec4::new(r.x, u.x, f.x.negate(), z),
                Vec4::new(r.y, u.y, f.y.negate(), z),
                Vec4::new(r.z, u.z, f.z.negate(), z),
                Vec4::new(z, z, z, T::one()),
            ],
        };
        translation(cam_pos.neg()).mul(basis)
    }

    /// Rows and columns exchanged.
    pub fn transpose(m: Mat4<T>) -> (r: Mat4<T>)
        ensures
            r == m.transpose_spec(),
            forall|i: int, j: int|
                0 <= i < 4 && 0 <= j < 4 ==> #[trigger] r.entry(i, j) == m.entry(j, i),
    {
        Mat4 { m: [m.row(0), m.row(1), m.row(2), m.row(3)] }
    }
}

/// The vertical opening angle, in degrees, of a picture whose horizontal
/// opening angle is `hfov_deg` degrees and whose width over height is `aspect`.
/// Half the horizontal angle, in radians, goes through the number type's
/// tangent, is divided by `aspect` and goes through its arctangent; what comes
/// back is half the vertical angle. This crate does not name the results of
/// those two: the angle returned is the opening angle for the arctangent that
/// came back.
fn hfov_to_vfov<T: Scalar>(aspect: T, hfov_deg: T) -> (r: T)
    ensures
        exists|half_angle: T| r == opening_angle_spec(half_angle),
{
    let tan_half_h = half_angle_radians(hfov_deg).tan();
    let half_angle = vertical_half_tangent(tan_half_h, aspect).atan();
    let r = opening_angle(half_angle);
    assert(r == opening_angle_spec(half_angle));
    r
}

} // verus!
