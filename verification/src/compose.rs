//! The transform composer: a node's local model matrix from its fields.
//!
//! A local vertex is first shifted so the pivot sits at the origin, then
//! rotated — pitch, then yaw, then roll, innermost first — shifted back to
//! the pivot, and finally translated by the node's position.  As a chain
//! of matrix products applied to a column vector this is
//! `T(position) * T(reference_point) * Roll * Yaw * Pitch * T(-reference_point)`,
//! multiplied left to right exactly as written here.

use vstd::prelude::*;

use crate::linalg::{
    mat_mul, mat_mul_of, neg_of, neg_vec, pitch_of, pitch_rotation, roll_of, roll_rotation,
    translation, translation_of, yaw_of, yaw_rotation,
};

verus! {

/// The local model matrix of a node with the given translation, rotation
/// angles and pivot: the product
/// `T(position) * T(reference_point) * Roll(rotation) * Yaw(rotation) * Pitch(rotation) * T(-reference_point)`,
/// associated left to right.
pub open spec fn local_transform_of(
    position: nalgebra_glm::Vec3,
    rotation: nalgebra_glm::Vec3,
    reference_point: nalgebra_glm::Vec3,
) -> nalgebra_glm::Mat4 {
    mat_mul_of(
        mat_mul_of(
            mat_mul_of(
                mat_mul_of(
                    mat_mul_of(translation_of(position), translation_of(reference_point)),
                    roll_of(rotation),
                ),
                yaw_of(rotation),
            ),
            pitch_of(rotation),
        ),
        translation_of(neg_of(reference_point)),
    )
}

/// Computes the local model matrix of a node from its fields.  Total and
/// side-effect free: every input yields exactly the matrix that
/// [`local_transform_of`] names.
pub fn compose_transform(
    position: &nalgebra_glm::Vec3,
    rotation: &nalgebra_glm::Vec3,
    reference_point: &nalgebra_glm::Vec3,
) -> (m: nalgebra_glm::Mat4)
    ensures
        m == local_transform_of(*position, *rotation, *reference_point),
{
    let translate_origin = translation(&neg_vec(reference_point));
    let translate_reference = translation(reference_point);
    let pitch_transform = pitch_rotation(rotation);
    let yaw_transform = yaw_rotation(rotation);
    let roll_transform = roll_rotation(rotation);
    let translate_position = translation(position);

    let m = mat_mul(&translate_position, &translate_reference);
    let m = mat_mul(&m, &roll_transform);
    let m = mat_mul(&m, &yaw_transform);
    let m = mat_mul(&m, &pitch_transform);
    mat_mul(&m, &translate_origin)
}

} // verus!
