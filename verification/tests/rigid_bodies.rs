//! The rigid-body extension: forces at points, derived data, integration.

use cyclone::fixed::SCALE;
use cyclone::matrix::Matrix3;
use cyclone::quaternion::Quaternion;
use cyclone::rigid::RigidBody;
use cyclone::vector::Vec3;
use cyclone::SimError;

#[test]
fn force_at_the_center_adds_no_torque() {
    let mut b = RigidBody::new();
    b.add_force(&Vec3::from_values(SCALE, 0, 0));
    assert_eq!(b.force_accum, Vec3 { x: SCALE, y: 0, z: 0 });
    assert_eq!(b.torque_accum, Vec3 { x: 0, y: 0, z: 0 });
    assert!(b.is_awake);
    b.clear_accumulators();
    assert_eq!(b.force_accum, Vec3 { x: 0, y: 0, z: 0 });
    assert_eq!(b.torque_accum, Vec3 { x: 0, y: 0, z: 0 });
}

#[test]
fn off_center_force_splits_into_force_and_torque() {
    let mut b = RigidBody::new();
    // a force along +y applied one unit along +x: torque about +z
    b.add_force_at_point(
        &Vec3::from_values(0, SCALE, 0),
        &Vec3::from_values(SCALE, 0, 0),
    );
    assert_eq!(b.force_accum, Vec3 { x: 0, y: SCALE, z: 0 });
    assert_eq!(b.torque_accum, Vec3 { x: 0, y: 0, z: SCALE });
}

#[test]
fn body_point_goes_through_the_transform_first() {
    let mut b = RigidBody::new();
    b.position = Vec3::from_values(2 * SCALE, 0, 0);
    // identity rotation with the body's position as translation
    b.transform_matrix.data[3] = 2 * SCALE;
    assert_eq!(
        b.get_point_in_world_space(&Vec3::from_values(SCALE, 0, 0)),
        Vec3 { x: 3 * SCALE, y: 0, z: 0 },
    );
    b.add_force_at_body_point(
        &Vec3::from_values(0, SCALE, 0),
        &Vec3::from_values(SCALE, 0, 0),
    );
    // the world offset from the center is one unit along +x
    assert_eq!(b.torque_accum, Vec3 { x: 0, y: 0, z: SCALE });
}

#[test]
fn inertia_tensor_is_stored_inverted() {
    let mut b = RigidBody::new();
    let tensor = Matrix3 { data: [2 * SCALE, 0, 0, 0, 2 * SCALE, 0, 0, 0, 2 * SCALE] };
    b.set_inertia_tensor(tensor);
    assert_eq!(
        b.inverse_inertia_tensor.data,
        [SCALE / 2, 0, 0, 0, SCALE / 2, 0, 0, 0, SCALE / 2],
    );
}

#[test]
fn derived_data_follows_position_and_orientation() {
    let mut b = RigidBody::new();
    b.position = Vec3::from_values(SCALE, 2 * SCALE, 3 * SCALE);
    b.set_inertia_tensor(Matrix3 {
        data: [2 * SCALE, 0, 0, 0, 2 * SCALE, 0, 0, 0, 2 * SCALE],
    });
    b.calculate_derived_data();
    // identity orientation: the transform is a pure translation
    assert_eq!(
        b.transform_matrix.data,
        [SCALE, 0, 0, SCALE, 0, SCALE, 0, 2 * SCALE, 0, 0, SCALE, 3 * SCALE],
    );
    // the world tensor of an identity rotation equals the body tensor
    assert_eq!(
        b.inverse_inertia_tensor_world.data,
        [SCALE / 2, 0, 0, 0, SCALE / 2, 0, 0, 0, SCALE / 2],
    );
}

#[test]
fn torque_spins_the_body_up() {
    let mut b = RigidBody::new();
    b.linear_damping = SCALE;
    b.angular_damping = SCALE;
    b.set_inertia_tensor(Matrix3 {
        data: [2 * SCALE, 0, 0, 0, 2 * SCALE, 0, 0, 0, 2 * SCALE],
    });
    b.calculate_derived_data();
    b.torque_accum = Vec3::from_values(0, 0, SCALE);
    assert!(b.integrate(SCALE).is_ok());
    // angular acceleration I⁻¹ * torque == 0.5 about z, for one second
    assert_eq!(b.rotation, Vec3 { x: 0, y: 0, z: SCALE / 2 });
    assert_eq!(b.torque_accum, Vec3 { x: 0, y: 0, z: 0 });
    // the orientation left the identity and stayed unit length
    assert!(b.orientation.k != 0);
}

#[test]
fn rigid_integration_matches_the_particle_law_translationally() {
    let mut b = RigidBody::new();
    b.linear_damping = SCALE;
    b.angular_damping = SCALE;
    b.velocity = Vec3::from_values(2 * SCALE, 0, 0);
    b.force_accum = Vec3::from_values(0, 4 * SCALE, 0);
    assert!(b.integrate(SCALE).is_ok());
    assert_eq!(b.position, Vec3 { x: 2 * SCALE, y: 0, z: 0 });
    assert_eq!(b.velocity, Vec3 { x: 2 * SCALE, y: 4 * SCALE, z: 0 });
    assert_eq!(b.force_accum, Vec3 { x: 0, y: 0, z: 0 });
    // the derived transform follows the new position
    assert_eq!(b.transform_matrix.data[3], 2 * SCALE);
}

#[test]
fn rigid_integration_rejects_negative_durations() {
    let mut b = RigidBody::new();
    assert_eq!(b.integrate(-5), Err(SimError::InvalidMassOrTimestep));
    let mut wall = RigidBody::new();
    wall.inverse_mass = 0;
    wall.velocity = Vec3::from_values(SCALE, 0, 0);
    let before_velocity = wall.velocity;
    assert!(wall.integrate(SCALE).is_ok());
    assert_eq!(wall.velocity, before_velocity);
}
