//! Matrix and quaternion algebra: exact values where fixed point is exact,
//! and the rotation round trip within tolerance.

use cyclone::fixed::SCALE;
use cyclone::matrix::{Matrix3, Matrix4};
use cyclone::quaternion::Quaternion;
use cyclone::rigid::calculate_transform_matrix;
use cyclone::vector::Vec3;

#[test]
fn matrix3_transform_and_determinant() {
    let double = Matrix3 { data: [2 * SCALE, 0, 0, 0, 2 * SCALE, 0, 0, 0, 2 * SCALE] };
    let v = Vec3::from_values(SCALE, -2 * SCALE, 3 * SCALE);
    assert_eq!(double.transform(&v), Vec3 { x: 2 * SCALE, y: -4 * SCALE, z: 6 * SCALE });
    assert_eq!(double.get_determinant(), 8 * SCALE);
    assert_eq!(Matrix3::new().get_determinant(), 0);
}

#[test]
fn matrix3_inverse_of_a_diagonal() {
    let double = Matrix3 { data: [2 * SCALE, 0, 0, 0, 2 * SCALE, 0, 0, 0, 2 * SCALE] };
    let inv = double.get_inverse().unwrap();
    assert_eq!(inv.data, [SCALE / 2, 0, 0, 0, SCALE / 2, 0, 0, 0, SCALE / 2]);
    // a singular matrix has no inverse, and invert leaves it alone
    let mut singular = Matrix3::new();
    assert!(singular.get_inverse().is_none());
    singular.invert();
    assert_eq!(singular.data, [0; 9]);
}

#[test]
fn matrix3_transpose_and_product() {
    let m = Matrix3 { data: [1, 2, 3, 4, 5, 6, 7, 8, 9] };
    let t = m.get_transpose();
    assert_eq!(t.data, [1, 4, 7, 2, 5, 8, 3, 6, 9]);
    let mut u = m;
    u.transpose();
    assert_eq!(u.data, t.data);
    // multiplying by the doubling matrix doubles every entry
    let a = Matrix3 { data: [SCALE, 2 * SCALE, 0, 0, SCALE, 0, 0, 0, SCALE] };
    let double = Matrix3 { data: [2 * SCALE, 0, 0, 0, 2 * SCALE, 0, 0, 0, 2 * SCALE] };
    let p = a.mul(&double);
    assert_eq!(p.data, [2 * SCALE, 4 * SCALE, 0, 0, 2 * SCALE, 0, 0, 0, 2 * SCALE]);
}

#[test]
fn matrix4_transforms_points_and_directions() {
    // the identity rotation with a translation
    let m = Matrix4 {
        data: [SCALE, 0, 0, 7 * SCALE, 0, SCALE, 0, -SCALE, 0, 0, SCALE, 0],
    };
    let v = Vec3::from_values(SCALE, 2 * SCALE, 3 * SCALE);
    assert_eq!(m.transform(&v), Vec3 { x: 8 * SCALE, y: SCALE, z: 3 * SCALE });
    assert_eq!(m.transform_direction(v), v);
    assert_eq!(m.transform_inverse_direction(v), v);
    // the inverse transform undoes the translation
    let w = m.transform(&v);
    assert_eq!(m.transform_inverse(w), v);
    assert_eq!(v.local_to_world(m), Vec3 { x: 8 * SCALE, y: SCALE, z: 3 * SCALE });
    assert_eq!(w.world_to_local(m), v);
    assert_eq!(v.local_to_world_dir(m), v);
    assert_eq!(v.world_to_local_dir(m), v);
    assert_eq!(m.get_determinant(), SCALE);
    let inv = m.get_inverse().unwrap();
    assert_eq!(inv.data, [SCALE, 0, 0, -7 * SCALE, 0, SCALE, 0, SCALE, 0, 0, SCALE, 0]);
}

#[test]
fn quaternion_normalize_is_exact_on_scaled_axes() {
    let q = Quaternion::from_values(2 * SCALE, 0, 0, 0);
    assert_eq!(q.normalize(), Quaternion { r: SCALE, i: 0, j: 0, k: 0 });
    // the zero quaternion falls back to the identity rotation
    let z = Quaternion::from_values(0, 0, 0, 0);
    assert_eq!(z.normalize(), Quaternion { r: SCALE, i: 0, j: 0, k: 0 });
}

#[test]
fn quaternion_multiplication_composes() {
    let id = Quaternion::identity();
    let q = Quaternion::from_values(SCALE / 2, SCALE / 4, 0, 0);
    let p = q.mul(&id);
    assert_eq!((p.r, p.i, p.j, p.k), (q.r, q.i, q.j, q.k));
    // i * i == -1
    let i = Quaternion::from_values(0, SCALE, 0, 0);
    let ii = i.mul(&i);
    assert_eq!((ii.r, ii.i, ii.j, ii.k), (-SCALE, 0, 0, 0));
}

#[test]
fn rotation_round_trip_through_the_transpose() {
    // a rotation of ninety degrees about the z axis: r == k == sqrt(1/2)
    let h = 741455;  // sqrt(0.5) in ticks, rounded toward zero
    let q = Quaternion::from_values(h, 0, 0, h).normalize();
    let mut m = Matrix3::new();
    m.set_rotation(&q);
    let v = Vec3::from_values(SCALE, SCALE / 2, -SCALE / 4);
    let rotated = m.transform(&v);
    // x maps near +y under this rotation
    assert!((rotated.y - SCALE).abs() < SCALE / 100);
    // transforming back with the transpose recovers the original vector
    // within fixed-point tolerance
    let back = m.get_transpose().transform(&rotated);
    assert!((back.x - v.x).abs() < SCALE / 100);
    assert!((back.y - v.y).abs() < SCALE / 100);
    assert!((back.z - v.z).abs() < SCALE / 100);
}

#[test]
fn transform_matrix_from_quaternion_and_position() {
    let pos = Vec3::from_values(3 * SCALE, -SCALE, SCALE / 2);
    let m = calculate_transform_matrix(&pos, &Quaternion::identity());
    assert_eq!(
        m.data,
        [SCALE, 0, 0, 3 * SCALE, 0, SCALE, 0, -SCALE, 0, 0, SCALE, SCALE / 2],
    );
}
