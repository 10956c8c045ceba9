//! Matrices that move, turn and stretch.

use vstd::prelude::*;
use crate::math::mat4::Mat4;
use crate::math::scalar::Scalar;
use crate::math::vec3::Vec3;
use crate::math::vec4::Vec4;

verus! {

/// The identity with `pos` in the first three rows of the fourth column.
pub open spec fn translation_spec<T: Scalar>(pos: Vec3<T>) -> Mat4<T> {
    let o = T::one_spec();
    let z = T::zero_spec();
    Mat4 {
        m: [
            Vec4 { x: o, y: z, z: z, w: z },
            Vec4 { x: z, y: o, z: z, w: z },
            Vec4 { x: z, y: z, z: o, w: z },
            Vec4 { x: pos.x, y: pos.y, z: pos.z, w: o },
        ],
    }
}

/// The identity with the diagonal `size.x`, `size.y`, `size.z`, one.
pub open spec fn scale_spec<T: Scalar>(size: Vec3<T>) -> Mat4<T> {
    let z = T::zero_spec();
    Mat4 {
        m: [
            Vec4 { x: size.x, y: z, z: z, w: z },
            Vec4 { x: z, y: size.y, z: z, w: z },
            Vec4 { x: z, y: z, z: size.z, w: z },
            Vec4 { x: z, y: z, z: z, w: T::one_spec() },
        ],
    }
}

/// Rodrigues' rotation matrix about `axis`, which is taken as it is given, for
/// an angle with the given sine and cosine.
pub open spec fn rotation_spec<T: Scalar>(sin: T, cos: T, axis: Vec3<T>) -> Mat4<T> {
    let z = T::zero_spec();
    let negcos = T::one_spec().minus_spec(cos);
    Mat4 {
        m: [
            Vec4 {
                x: cos.plus_spec(axis.x.times_spec(axis.x).times_spec(negcos)),
                y: axis.y.times_spec(axis.x).times_spec(negcos).plus_spec(axis.z.times_spec(sin)),
                z: axis.z.times_spec(axis.x).times_spec(negcos).minus_spec(axis.y.times_spec(sin)),
                w: z,
            },
            Vec4 {
                x: axis.x.times_spec(axis.y).times_spec(negcos).minus_spec(axis.z.times_spec(sin)),
                y: cos.plus_spec(axis.y.times_spec(axis.y).times_spec(negcos)),
                z: axis.z.times_spec(axis.y).times_spec(negcos).plus_spec(axis.x.times_spec(sin)),
                w: z,
            },
            Vec4 {
                x: axis.x.times_spec(axis.z).times_spec(negcos).plus_spec(axis.y.times_spec(sin)),
                y: axis.y.times_spec(axis.z).times_spec(negcos).minus_spec(axis.x.times_spec(sin)),
                z: cos.plus_spec(axis.z.times_spec(axis.z).times_spec(negcos)),
                w: z,
            },
            Vec4 { x: z, y: z, z: z, w: T::one_spec() },
        ],
    }
}

/// The matrix that moves every point by `pos`.
pub fn translation<T: Scalar>(pos: Vec3<T>) -> (r: Mat4<T>)
    ensures
        r == translation_spec(pos),
{
    let o = T::one();
    let z = T::zero();
    Mat4::from_vec4(
        Vec4::new(o, z, z, z),
        Vec4::new(z, o, z, z),
        Vec4::new(z, z, o, z),
        Vec4::new(pos.x, pos.y, pos.z, o),
    )
}

/// The rotation about `axis` for an angle of which the sine and the cosine are
/// given. The axis is used as it stands: pass a unit vector.
pub fn rotation_from_sin_cos<T: Scalar>(sin: T, cos: T, axis: Vec3<T>) -> (r: Mat4<T>)
    ensures
        r == rotation_spec(sin, cos, axis),
{
    let z = T::zero();
    let negcos = T::one().minus(cos);
    Mat4::from_vec4(
        Vec4::new(
            cos.plus(axis.x.times(axis.x).times(negcos)),
            axis.y.times(axis.x).times(negcos).plus(axis.z.times(sin)),
            axis.z.times(axis.x).times(negcos).minus(axis.y.times(sin)),
            z,
        ),
        Vec4::new(
            axis.x.times(axis.y).times(negcos).minus(axis.z.times(sin)),
            cos.plus(axis.y.times(axis.y).times(negcos)),
            axis.z.times(axis.y).times(negcos).plus(axis.x.times(sin)),
            z,
        ),
        Vec4::new(
            axis.x.times(axis.z).times(negcos).plus(axis.y.times(sin)),
            axis.y.times(axis.z).times(negcos).minus(axis.x.times(sin)),
            cos.plus(axis.z.times(axis.z).times(negcos)),
            z,
        ),
        Vec4::new(z, z, z, T::one()),
    )
}

/// The rotation by `angle`, in radians, about `axis`, which is normalized
/// first. The sine and the cosine come from the number type, whose trigonometry
/// this crate does not name: the matrix is the one of
/// [`rotation_from_sin_cos`] for the pair that came back.
pub fn rotate<T: Scalar>(angle: T, axis: Vec3<T>) -> (r: Mat4<T>)
    ensures
        exists|sin: T, cos: T| r == rotation_spec(sin, cos, Vec3::normalize_spec(axis)),
{
    let axis = Vec3::normalize(axis);
    let sin = angle.sin();
    let cos = angle.cos();
    rotation_from_sin_cos(sin, cos, axis)
}

/// The matrix that stretches the three axes by the components of `size`.
pub fn scale<T: Scalar>(size: Vec3<T>) -> (r: Mat4<T>)
    ensures
        r == scale_spec(size),
{
    let z = T::zero();
    Mat4::from_vec4(
        Vec4::new(size.x, z, z, z),
        Vec4::new(z, size.y, z, z),
        Vec4::new(z, z, size.z, z),
        Vec4::new(z, z, z, T::one()),
    )
}

} // verus!
