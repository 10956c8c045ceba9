//! What holds of the vectors and matrices whatever values they carry.
//!
//! The number type is abstract, and no algebraic law is asked of it. A property
//! that rests on one says which, as a premise on the very operands it concerns.

use vstd::prelude::*;
use crate::math::mat4::Mat4;
use crate::math::scalar::Scalar;
use crate::math::vec2::Vec2;
use crate::math::vec3::Vec3;
use crate::math::vec4::Vec4;

verus! {

/// The product of `a` and `b` does not depend on their order.
pub open spec fn product_commutes<T: Scalar>(a: T, b: T) -> bool {
    a.times_spec(b) == b.times_spec(a)
}

/// Negating `a - b` gives `b - a`.
pub open spec fn difference_flips<T: Scalar>(a: T, b: T) -> bool {
    a.minus_spec(b).negate_spec() == b.minus_spec(a)
}

/// A sum that starts from zero with the product of one and `x` is `x`, with
/// the one on either side.
pub open spec fn unit_product_starts_sum<T: Scalar>(x: T) -> bool {
    let zero = T::zero_spec();
    let one = T::one_spec();
    &&& zero.plus_spec(one.times_spec(x)) == x
    &&& zero.plus_spec(x.times_spec(one)) == x
}

/// Adding the product of zero and `x` leaves `sum` as it is, with the zero on
/// either side. The product itself need not be zero.
pub open spec fn zero_product_is_neutral<T: Scalar>(sum: T, x: T) -> bool {
    let zero = T::zero_spec();
    &&& sum.plus_spec(zero.times_spec(x)) == sum
    &&& sum.plus_spec(x.times_spec(zero)) == sum
}

/// The entries of `m` pass through a product with the identity: each starts a
/// sum as the product with one, and the products of zero with the entries
/// change neither zero nor an entry when they are added to it.
pub open spec fn units_act_on_entries<T: Scalar>(m: Mat4<T>) -> bool {
    &&& forall|c: int, r: int|
        0 <= c < 4 && 0 <= r < 4 ==> unit_product_starts_sum(#[trigger] m.entry(c, r))
    &&& forall|c: int, r: int|
        0 <= c < 4 && 0 <= r < 4 ==> zero_product_is_neutral(
            T::zero_spec(),
            #[trigger] m.entry(c, r),
        )
    &&& forall|c: int, r: int, k: int, l: int|
        0 <= c < 4 && 0 <= r < 4 && 0 <= k < 4 && 0 <= l < 4 ==> zero_product_is_neutral(
            #[trigger] m.entry(c, r),
            #[trigger] m.entry(k, l),
        )
}

/// The dot product of two 2-vectors is symmetric wherever the products of
/// their components are.
pub proof fn lemma_dot_symmetric_vec2<T: Scalar>(a: Vec2<T>, b: Vec2<T>)
    requires
        product_commutes(a.x, b.x),
        product_commutes(a.y, b.y),
    ensures
        Vec2::dot_spec(a, b) == Vec2::dot_spec(b, a),
{
}

/// The dot product of two 3-vectors is symmetric wherever the products of
/// their components are.
pub proof fn lemma_dot_symmetric_vec3<T: Scalar>(a: Vec3<T>, b: Vec3<T>)
    requires
        product_commutes(a.x, b.x),
        product_commutes(a.y, b.y),
        product_commutes(a.z, b.z),
    ensures
        Vec3::dot_spec(a, b) == Vec3::dot_spec(b, a),
{
}

/// The dot product of two 4-vectors is symmetric wherever the products of
/// their components are.
pub proof fn lemma_dot_symmetric_vec4<T: Scalar>(a: Vec4<T>, b: Vec4<T>)
    requires
        product_commutes(a.x, b.x),
        product_commutes(a.y, b.y),
        product_commutes(a.z, b.z),
        product_commutes(a.w, b.w),
    ensures
        Vec4::dot_spec(a, b) == Vec4::dot_spec(b, a),
{
}

/// Exchanging the operands changes the sign of the first two components of
/// `cross`, given that the products involved commute and that their differences
/// flip under negation.
///
/// The third component follows only for operands on which it happens to: it is
/// computed as `a.x * b.y - a.y * b.z`, which is not antisymmetric. The last
/// premise names exactly the operands for which it is.
pub proof fn lemma_cross_antisymmetric<T: Scalar>(a: Vec3<T>, b: Vec3<T>)
    requires
        product_commutes(a.y, b.z),
        product_commutes(a.z, b.y),
        product_commutes(a.z, b.x),
        product_commutes(a.x, b.z),
        difference_flips(b.y.times_spec(a.z), b.z.times_spec(a.y)),
        difference_flips(b.z.times_spec(a.x), b.x.times_spec(a.z)),
        Vec3::cross_spec(a, b).z == Vec3::cross_spec(b, a).z.negate_spec(),
    ensures
        Vec3::cross_spec(a, b) == Vec3::cross_spec(b, a).neg_spec(),
{
}

/// What the premise on the entries gives for the entry in column `c` and row
/// `r`, and for every other entry beside it.
proof fn lemma_entries_pass<T: Scalar>(m: Mat4<T>, c: int, r: int)
    requires
        units_act_on_entries(m),
        0 <= c < 4,
        0 <= r < 4,
    ensures
        unit_product_starts_sum(m.entry(c, r)),
        forall|k: int, l: int|
            0 <= k < 4 && 0 <= l < 4 ==> zero_product_is_neutral(
                T::zero_spec(),
                #[trigger] m.entry(k, l),
            ) && zero_product_is_neutral(m.entry(c, r), m.entry(k, l)),
{
    assert forall|k: int, l: int| 0 <= k < 4 && 0 <= l < 4 implies zero_product_is_neutral(
        T::zero_spec(),
        #[trigger] m.entry(k, l),
    ) && zero_product_is_neutral(m.entry(c, r), m.entry(k, l)) by {
        assert(zero_product_is_neutral(m.entry(c, r), m.entry(k, l)));
    }
}

/// Exchanging the operands of the vector product changes its sign, given that
/// the products involved commute and that their differences flip under
/// negation.
pub proof fn lemma_vector_product_antisymmetric<T: Scalar>(a: Vec3<T>, b: Vec3<T>)
    requires
        product_commutes(a.y, b.z),
        product_commutes(a.z, b.y),
        product_commutes(a.z, b.x),
        product_commutes(a.x, b.z),
        product_commutes(a.x, b.y),
        product_commutes(a.y, b.x),
        difference_flips(b.y.times_spec(a.z), b.z.times_spec(a.y)),
        difference_flips(b.z.times_spec(a.x), b.x.times_spec(a.z)),
        difference_flips(b.x.times_spec(a.y), b.y.times_spec(a.x)),
    ensures
        Vec3::vector_product_spec(a, b) == Vec3::vector_product_spec(b, a).neg_spec(),
{
}

/// Multiplying by the identity from the left leaves a matrix as it is, given
/// that its entries pass through a product with the identity.
pub proof fn lemma_identity_left<T: Scalar>(m: Mat4<T>)
    requires
        units_act_on_entries(m),
    ensures
        Mat4::<T>::identity_spec().mul_spec(m) == m,
{
    let p = Mat4::<T>::identity_spec().mul_spec(m);
    assert forall|c: int, r: int| 0 <= c < 4 && 0 <= r < 4 implies p.entry(c, r) == m.entry(
        c,
        r,
    ) by {
        lemma_entries_pass(m, c, r);
    }
    assert forall|c: int| 0 <= c < 4 implies p.m[c] == m.m[c] by {
        assert(p.entry(c, 0) == m.entry(c, 0));
        assert(p.entry(c, 1) == m.entry(c, 1));
        assert(p.entry(c, 2) == m.entry(c, 2));
        assert(p.entry(c, 3) == m.entry(c, 3));
    }
    assert(p.m =~= m.m);
}

/// Multiplying by the identity from the right leaves a matrix as it is, given
/// that its entries pass through a product with the identity.
pub proof fn lemma_identity_right<T: Scalar>(m: Mat4<T>)
    requires
        units_act_on_entries(m),
    ensures
        m.mul_spec(Mat4::<T>::identity_spec()) == m,
{
    let p = m.mul_spec(Mat4::<T>::identity_spec());
    assert forall|c: int, r: int| 0 <= c < 4 && 0 <= r < 4 implies p.entry(c, r) == m.entry(
        c,
        r,
    ) by {
        lemma_entries_pass(m, c, r);
    }
    assert forall|c: int| 0 <= c < 4 implies p.m[c] == m.m[c] by {
        assert(p.entry(c, 0) == m.entry(c, 0));
        assert(p.entry(c, 1) == m.entry(c, 1));
        assert(p.entry(c, 2) == m.entry(c, 2));
        assert(p.entry(c, 3) == m.entry(c, 3));
    }
    assert(p.m =~= m.m);
}

/// The sixteen entries are laid out column after column: the entry in column
/// `c` and row `r` is number `4 * c + r` of the view.
pub proof fn lemma_view_is_column_major<T: Scalar>(m: Mat4<T>, c: int, r: int)
    requires
        0 <= c < 4,
        0 <= r < 4,
    ensures
        m@.len() == 16,
        m@[4 * c + r] == m.entry(c, r),
{
}

/// Transposing twice gives the matrix back.
pub proof fn lemma_transpose_involution<T: Scalar>(m: Mat4<T>)
    ensures
        m.transpose_spec().transpose_spec() == m,
{
    assert(m.transpose_spec().transpose_spec().m =~= m.m);
}

} // verus!
