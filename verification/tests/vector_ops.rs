//! Vector arithmetic on exact fixed-point values.

use cyclone::fixed::SCALE;
use cyclone::vector::Vec3;

#[test]
fn construction_and_builders() {
    let v = Vec3::from_values(1, 2, 3);
    assert_eq!(v, Vec3 { x: 1, y: 2, z: 3 });
    assert_eq!(Vec3::new(), Vec3 { x: 0, y: 0, z: 0 });
    assert_eq!(Vec3::from_vec(vec![4, 5, 6, 7]), Vec3 { x: 4, y: 5, z: 6 });
    assert_eq!(v.build(), v);
    let mut w = v;
    w.set_values(9, 8, 7);
    assert_eq!(w, Vec3 { x: 9, y: 8, z: 7 });
    w.set_to_zero();
    assert_eq!(w, Vec3::new());
}

#[test]
fn add_sub_invert() {
    let a = Vec3::from_values(SCALE, 2 * SCALE, -SCALE);
    let b = Vec3::from_values(SCALE, -SCALE, SCALE);
    assert_eq!(a.add(b), Vec3 { x: 2 * SCALE, y: SCALE, z: 0 });
    assert_eq!(a.sub(b), Vec3 { x: 0, y: 3 * SCALE, z: -2 * SCALE });
    let mut c = a;
    c.invert();
    assert_eq!(c, Vec3 { x: -SCALE, y: -2 * SCALE, z: SCALE });
}

#[test]
fn products() {
    let a = Vec3::from_values(SCALE, 2 * SCALE, 3 * SCALE);
    let b = Vec3::from_values(4 * SCALE, -SCALE, 2 * SCALE);
    // dot: 4 - 2 + 6 == 8
    assert_eq!(a.scalar_product(b), 8 * SCALE);
    assert_eq!(a.component_product(b), Vec3 { x: 4 * SCALE, y: -2 * SCALE, z: 6 * SCALE });
    let mut c = a;
    c.component_product_update(b);
    assert_eq!(c, Vec3 { x: 4 * SCALE, y: -2 * SCALE, z: 6 * SCALE });
    // cross product of the axes: x cross y == z
    let x = Vec3::from_values(SCALE, 0, 0);
    let y = Vec3::from_values(0, SCALE, 0);
    assert_eq!(x.vector_product(y), Vec3 { x: 0, y: 0, z: SCALE });
    assert_eq!(y.vector_product(x), Vec3 { x: 0, y: 0, z: -SCALE });
    // scaled accumulate: a += b * 0.5
    let mut d = a;
    d.add_scaled(&b, SCALE / 2);
    assert_eq!(d, Vec3 { x: 3 * SCALE, y: 3 * SCALE / 2, z: 4 * SCALE });
}

#[test]
fn magnitude_and_normalize() {
    let v = Vec3::from_values(3 * SCALE, 4 * SCALE, 0);
    assert_eq!(v.square_magnitude(), 25 * SCALE);
    assert_eq!(v.magnitude(), 5 * SCALE);
    let mut n = v;
    n.normalize();
    // 3/5 and 4/5, rounded toward zero in ticks
    assert_eq!(n.x, 3 * SCALE / 5);
    assert_eq!(n.y, 4 * SCALE / 5);
    assert_eq!(n.z, 0);
    // a zero vector stays put
    let mut z = Vec3::new();
    z.normalize();
    assert_eq!(z, Vec3::new());
    // scaling by 2
    assert_eq!(v.mul(2 * SCALE), Vec3 { x: 6 * SCALE, y: 8 * SCALE, z: 0 });
}

#[test]
fn orthogonal_basis_from_two_directions() {
    let mut a = Vec3::from_values(2 * SCALE, 0, 0);
    let mut b = Vec3::from_values(SCALE, SCALE, 0);
    let mut c = Vec3::new();
    Vec3::make_orthogonal_basis(&mut a, &mut b, &mut c);
    assert_eq!(a, Vec3 { x: SCALE, y: 0, z: 0 });
    assert_eq!(c, Vec3 { x: 0, y: 0, z: SCALE });
    assert_eq!(b, Vec3 { x: 0, y: SCALE, z: 0 });
    // pairwise orthogonal
    assert_eq!(a.scalar_product(b), 0);
    assert_eq!(a.scalar_product(c), 0);
    assert_eq!(b.scalar_product(c), 0);
    // parallel inputs leave the degenerate cross product and the old b
    let mut pa = Vec3::from_values(SCALE, 0, 0);
    let mut pb = Vec3::from_values(3 * SCALE, 0, 0);
    let mut pc = Vec3::new();
    Vec3::make_orthogonal_basis(&mut pa, &mut pb, &mut pc);
    assert_eq!(pc, Vec3 { x: 0, y: 0, z: 0 });
    assert_eq!(pb, Vec3 { x: 3 * SCALE, y: 0, z: 0 });
}
