use nalgebra_glm::{identity, rotation, translation, vec3};
use scene_graph::compose::compose_transform;

fn zero() -> nalgebra_glm::Vec3 {
    vec3(0.0, 0.0, 0.0)
}

#[test]
fn all_zero_fields_give_identity() {
    let m = compose_transform(&zero(), &zero(), &zero());
    assert_eq!(m, identity::<f32, 4>());
}

#[test]
fn zero_rotation_is_pure_translation() {
    let m = compose_transform(&vec3(1.0, 2.0, 3.0), &zero(), &zero());
    assert_eq!(m, translation(&vec3(1.0, 2.0, 3.0)));
}

#[test]
fn pivot_cancels_when_rotation_is_zero() {
    // With no rotation the shift to the pivot and back cancels exactly.
    let m = compose_transform(&vec3(1.0, 2.0, 3.0), &zero(), &vec3(4.0, -5.0, 6.0));
    assert_eq!(m, translation(&vec3(1.0, 2.0, 3.0)));
}

#[test]
fn roll_axis_reduces_to_z_for_zero_pitch_and_yaw() {
    let angle = 0.7_f32;
    let m = compose_transform(&zero(), &vec3(0.0, 0.0, angle), &zero());
    assert_eq!(m, rotation(angle, &vec3(0.0, 0.0, 1.0)));
}

#[test]
fn pitch_rotates_about_x() {
    let angle = 0.3_f32;
    let m = compose_transform(&zero(), &vec3(angle, 0.0, 0.0), &zero());
    assert_eq!(m, rotation(angle, &vec3(1.0, 0.0, 0.0)));
}

#[test]
fn yaw_rotates_about_y() {
    let angle = -1.1_f32;
    let m = compose_transform(&zero(), &vec3(0.0, angle, 0.0), &zero());
    assert_eq!(m, rotation(angle, &vec3(0.0, 1.0, 0.0)));
}

#[test]
fn composition_order_is_translation_reference_roll_yaw_pitch() {
    let position = vec3(1.0, -2.0, 0.5);
    let rot = vec3(0.4, 0.9, -0.6);
    let reference_point = vec3(0.1, 0.2, 0.3);
    let m = compose_transform(&position, &rot, &reference_point);
    let pitch = rotation(rot.x, &vec3(1.0, 0.0, 0.0));
    let yaw = rotation(rot.y, &vec3(0.0, 1.0, 0.0));
    let roll_axis = vec3(rot.y.sin(), rot.x.sin(), rot.y.cos() * rot.x.cos());
    let roll = rotation(rot.z, &roll_axis);
    let expected = translation(&position)
        * translation(&reference_point)
        * roll
        * yaw
        * pitch
        * translation(&-reference_point);
    assert_eq!(m, expected);
}
