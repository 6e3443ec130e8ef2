//! The trusted surface over the `nalgebra-glm` linear-algebra crate.
//!
//! Matrices and vectors are opaque values here: the verifier knows nothing
//! of their components (they are floating point, which it cannot reason
//! about).  Each product the scene graph needs is given a name — an
//! uninterpreted spec function of the operands alone — and a thin wrapper
//! whose contract ties the runtime call to that name.  Every contract of
//! the library speaks of matrices only through these names.

use vstd::prelude::*;

verus! {

#[verifier::external_type_specification]
#[verifier::external_body]
#[verifier::reject_recursive_types(T)]
#[verifier::reject_recursive_types(R)]
#[verifier::reject_recursive_types(C)]
#[verifier::reject_recursive_types(S)]
pub struct ExMatrix<T, R, C, S>(nalgebra::Matrix<T, R, C, S>);

#[verifier::external_type_specification]
#[verifier::external_body]
pub struct ExConst<const R: usize>(nalgebra::Const<R>);

#[verifier::external_type_specification]
#[verifier::external_body]
#[verifier::reject_recursive_types(T)]
pub struct ExArrayStorage<T, const R: usize, const C: usize>(nalgebra::ArrayStorage<T, R, C>);

/// The product `a * b` of two 4x4 matrices.
pub uninterp spec fn mat_mul_of(a: nalgebra_glm::Mat4, b: nalgebra_glm::Mat4) -> nalgebra_glm::Mat4;

/// Relies on `nalgebra`'s `Mul` impl for matrices: the product of the two
/// operands, a function of the operands alone.
#[verifier::external_body]
pub(crate) fn mat_mul(a: &nalgebra_glm::Mat4, b: &nalgebra_glm::Mat4) -> (m: nalgebra_glm::Mat4)
    ensures
        m == mat_mul_of(*a, *b),
{
    a * b
}

/// The 4x4 translation matrix built from a 3-component vector.
pub uninterp spec fn translation_of(v: nalgebra_glm::Vec3) -> nalgebra_glm::Mat4;

/// Relies on `nalgebra_glm::translation`: the 4x4 translation matrix of
/// `v`, a function of `v` alone.
#[verifier::external_body]
pub(crate) fn translation(v: &nalgebra_glm::Vec3) -> (m: nalgebra_glm::Mat4)
    ensures
        m == translation_of(*v),
{
    nalgebra_glm::translation(v)
}

/// The component-wise negation `-v` of a 3-component vector.
pub uninterp spec fn neg_of(v: nalgebra_glm::Vec3) -> nalgebra_glm::Vec3;

/// Relies on `nalgebra`'s `Neg` impl for vectors: the component-wise
/// negation of `v`, a function of `v` alone.
#[verifier::external_body]
pub(crate) fn neg_vec(v: &nalgebra_glm::Vec3) -> (r: nalgebra_glm::Vec3)
    ensures
        r == neg_of(*v),
{
    -v
}

/// The pitch part of a node's rotation: the rotation by `r.x` radians
/// about the local X axis.
pub uninterp spec fn pitch_of(r: nalgebra_glm::Vec3) -> nalgebra_glm::Mat4;

/// Relies on `nalgebra_glm::rotation`: the right-handed rotation by the
/// angle `r.x` (radians) about the axis `(1, 0, 0)`, a function of `r`
/// alone.
#[verifier::external_body]
pub(crate) fn pitch_rotation(r: &nalgebra_glm::Vec3) -> (m: nalgebra_glm::Mat4)
    ensures
        m == pitch_of(*r),
{
    let axis: nalgebra_glm::Vec3 = *nalgebra_glm::Vec3::x_axis();
    nalgebra_glm::rotation(r.x, &axis)
}

/// The yaw part of a node's rotation: the rotation by `r.y` radians about
/// the local Y axis.
pub uninterp spec fn yaw_of(r: nalgebra_glm::Vec3) -> nalgebra_glm::Mat4;

/// Relies on `nalgebra_glm::rotation`: the right-handed rotation by the
/// angle `r.y` (radians) about the axis `(0, 1, 0)`, a function of `r`
/// alone.
#[verifier::external_body]
pub(crate) fn yaw_rotation(r: &nalgebra_glm::Vec3) -> (m: nalgebra_glm::Mat4)
    ensures
        m == yaw_of(*r),
{
    let axis: nalgebra_glm::Vec3 = *nalgebra_glm::Vec3::y_axis();
    nalgebra_glm::rotation(r.y, &axis)
}

/// The roll part of a node's rotation: the rotation by `r.z` radians about
/// the composite axis `(sin(r.y), sin(r.x), cos(r.y) * cos(r.x))`.
pub uninterp spec fn roll_of(r: nalgebra_glm::Vec3) -> nalgebra_glm::Mat4;

/// Relies on `nalgebra_glm::rotation` and `f32::sin` / `f32::cos`: the
/// right-handed rotation by the angle `r.z` (radians) about the composite
/// axis `(sin(r.y), sin(r.x), cos(r.y) * cos(r.x))`, a function of `r`
/// alone.  The axis deliberately couples yaw and pitch into the roll; it
/// must stay exactly this formula (for `r.x == r.y == 0` it reduces to the
/// plain Z axis).  `nalgebra_glm::rotation` normalizes the axis it is
/// given.
#[verifier::external_body]
pub(crate) fn roll_rotation(r: &nalgebra_glm::Vec3) -> (m: nalgebra_glm::Mat4)
    ensures
        m == roll_of(*r),
{
    let axis = nalgebra_glm::vec3(r.y.sin(), r.x.sin(), r.y.cos() * r.x.cos());
    nalgebra_glm::rotation(r.z, &axis)
}

/// Relies on `nalgebra`'s `Matrix::zeros`: the all-zero 3-component
/// vector.  Nothing is claimed of the value; the verifier treats it as an
/// arbitrary vector.
#[verifier::external_body]
pub(crate) fn zero_vec() -> nalgebra_glm::Vec3 {
    nalgebra_glm::Vec3::zeros()
}

} // verus!
