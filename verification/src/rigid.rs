//! The rigid-body motion model: a particle's translational state extended by
//! an orientation, an angular velocity, a torque accumulator and an inertia
//! tensor, with the world-space tensor and the transform matrix derived anew
//! from position and orientation after every step.

use vstd::prelude::*;

use crate::fixed::{
    bounded, fmul, fpow, fx_mul, fx_pow, iabs, lemma_fmul_abs_le, lemma_fmul_bound, LIM, SCALE,
};
use crate::matrix::{
    det3, lemma_mat_product_small, m3_inverse_entries, m3_xform, rot_e, Matrix3, Matrix4, MAT_LIM,
};
use crate::particle::DEFAULT_DAMPING;
use crate::quaternion::{
    bounded_quat, q_after_scaled_vector, qmul_i, qmul_j, qmul_k, qmul_r, qnormalized, vec_quat,
    Quaternion,
};
use crate::fixed::fits64;
use crate::vector::{
    bounded3, bounded_vec, cast3, fits3, vadd, vcross, vscale, vsub, vv, Vec3, V3,
};
use crate::SimError;

verus! {

/// One inner entry of `R * I⁻¹`: row `r` of the rotation against column `c`
/// of the body-space inverse inertia tensor.
pub open spec fn iit_t(b: Matrix3, m: Matrix4, r: int, c: int) -> int {
    fmul(m.e(4 * r), b.e(c)) + fmul(m.e(4 * r + 1), b.e(c + 3)) + fmul(m.e(4 * r + 2), b.e(c + 6))
}

/// Entry `(r, c)` of the world-space inverse inertia tensor
/// `R * I⁻¹ * Rᵀ`, with `R` the rotational part of the transform `m`.
pub open spec fn iit_world_e(b: Matrix3, m: Matrix4, r: int, c: int) -> int {
    fmul(iit_t(b, m, r, 0), m.e(4 * c)) + fmul(iit_t(b, m, r, 1), m.e(4 * c + 1)) + fmul(
        iit_t(b, m, r, 2),
        m.e(4 * c + 2),
    )
}

/// Sets `iit_world` to the body-space inverse inertia tensor carried into
/// world space by the rotational part of the given transform.
#[verifier::rlimit(100)]
pub fn transform_inertia_tensor(iit_world: &mut Matrix3, iit_body: &Matrix3, rotmat: &Matrix4)
    requires
        iit_body.wf(),
        rotmat.wf(),
    ensures
        final(iit_world).e(0) == iit_world_e(*iit_body, *rotmat, 0, 0),
        final(iit_world).e(1) == iit_world_e(*iit_body, *rotmat, 0, 1),
        final(iit_world).e(2) == iit_world_e(*iit_body, *rotmat, 0, 2),
        final(iit_world).e(3) == iit_world_e(*iit_body, *rotmat, 1, 0),
        final(iit_world).e(4) == iit_world_e(*iit_body, *rotmat, 1, 1),
        final(iit_world).e(5) == iit_world_e(*iit_body, *rotmat, 1, 2),
        final(iit_world).e(6) == iit_world_e(*iit_body, *rotmat, 2, 0),
        final(iit_world).e(7) == iit_world_e(*iit_body, *rotmat, 2, 1),
        final(iit_world).e(8) == iit_world_e(*iit_body, *rotmat, 2, 2),
{
    proof {
        assert forall|i: int| 0 <= i < 12 implies bounded(#[trigger] rotmat.e(i)) by {}
        assert forall|j: int| 0 <= j < 9 implies bounded(#[trigger] iit_body.e(j)) by {}
        assert forall|i: int, j: int|
            0 <= i < 12 && 0 <= j < 9 implies iabs(
            fmul(#[trigger] rotmat.e(i), #[trigger] iit_body.e(j)),
        ) <= 0x40_0000_0000 by {
            crate::fixed::lemma_fmul_le(rotmat.e(i), iit_body.e(j), MAT_LIM as int);
        }
    }
    let b = &iit_body.data;
    let m = &rotmat.data;
    let t4 = fx_mul(m[0], b[0]) + fx_mul(m[1], b[3]) + fx_mul(m[2], b[6]);
    let t9 = fx_mul(m[0], b[1]) + fx_mul(m[1], b[4]) + fx_mul(m[2], b[7]);
    let t14 = fx_mul(m[0], b[2]) + fx_mul(m[1], b[5]) + fx_mul(m[2], b[8]);
    let t28 = fx_mul(m[4], b[0]) + fx_mul(m[5], b[3]) + fx_mul(m[6], b[6]);
    let t33 = fx_mul(m[4], b[1]) + fx_mul(m[5], b[4]) + fx_mul(m[6], b[7]);
    let t38 = fx_mul(m[4], b[2]) + fx_mul(m[5], b[5]) + fx_mul(m[6], b[8]);
    let t52 = fx_mul(m[8], b[0]) + fx_mul(m[9], b[3]) + fx_mul(m[10], b[6]);
    let t57 = fx_mul(m[8], b[1]) + fx_mul(m[9], b[4]) + fx_mul(m[10], b[7]);
    let t62 = fx_mul(m[8], b[2]) + fx_mul(m[9], b[5]) + fx_mul(m[10], b[8]);
    proof {
        lemma_iit_row_bounds(*iit_body, *rotmat, t4 as int, t9 as int, t14 as int, 0);
        lemma_iit_row_bounds(*iit_body, *rotmat, t28 as int, t33 as int, t38 as int, 1);
        lemma_iit_row_bounds(*iit_body, *rotmat, t52 as int, t57 as int, t62 as int, 2);
    }
    iit_world.data = [
        fx_mul(t4, m[0]) + fx_mul(t9, m[1]) + fx_mul(t14, m[2]),
        fx_mul(t4, m[4]) + fx_mul(t9, m[5]) + fx_mul(t14, m[6]),
        fx_mul(t4, m[8]) + fx_mul(t9, m[9]) + fx_mul(t14, m[10]),
        fx_mul(t28, m[0]) + fx_mul(t33, m[1]) + fx_mul(t38, m[2]),
        fx_mul(t28, m[4]) + fx_mul(t33, m[5]) + fx_mul(t38, m[6]),
        fx_mul(t28, m[8]) + fx_mul(t33, m[9]) + fx_mul(t38, m[10]),
        fx_mul(t52, m[0]) + fx_mul(t57, m[1]) + fx_mul(t62, m[2]),
        fx_mul(t52, m[4]) + fx_mul(t57, m[5]) + fx_mul(t62, m[6]),
        fx_mul(t52, m[8]) + fx_mul(t57, m[9]) + fx_mul(t62, m[10]),
    ];
}

/// Products of a row of inner entries with rotation entries stay in range.
proof fn lemma_iit_row_bounds(b: Matrix3, m: Matrix4, ta: int, tb: int, tc: int, r: int)
    requires
        m.wf(),
        ta == iit_t(b, m, r, 0),
        tb == iit_t(b, m, r, 1),
        tc == iit_t(b, m, r, 2),
        bounded(ta),
        bounded(tb),
        bounded(tc),
    ensures
        iabs(fmul(ta, m.e(0))) <= 0x1000_0000_0000_0000,
        iabs(fmul(ta, m.e(4))) <= 0x1000_0000_0000_0000,
        iabs(fmul(ta, m.e(8))) <= 0x1000_0000_0000_0000,
        iabs(fmul(tb, m.e(1))) <= 0x1000_0000_0000_0000,
        iabs(fmul(tb, m.e(5))) <= 0x1000_0000_0000_0000,
        iabs(fmul(tb, m.e(9))) <= 0x1000_0000_0000_0000,
        iabs(fmul(tc, m.e(2))) <= 0x1000_0000_0000_0000,
        iabs(fmul(tc, m.e(6))) <= 0x1000_0000_0000_0000,
        iabs(fmul(tc, m.e(10))) <= 0x1000_0000_0000_0000,
{
    lemma_fmul_bound(ta, m.e(0));
    lemma_fmul_bound(ta, m.e(4));
    lemma_fmul_bound(ta, m.e(8));
    lemma_fmul_bound(tb, m.e(1));
    lemma_fmul_bound(tb, m.e(5));
    lemma_fmul_bound(tb, m.e(9));
    lemma_fmul_bound(tc, m.e(2));
    lemma_fmul_bound(tc, m.e(6));
    lemma_fmul_bound(tc, m.e(10));
}

/// The transform matrix of a body at `position` with the unit orientation
/// `orientation`: the quaternion's rotation and the position as translation.
pub fn calculate_transform_matrix(position: &Vec3, orientation: &Quaternion) -> (m: Matrix4)
    requires
        bounded_quat(*orientation),
    ensures
        m.e(0) == rot_e(*orientation, 0),
        m.e(1) == rot_e(*orientation, 1),
        m.e(2) == rot_e(*orientation, 2),
        m.e(3) == position.x as int,
        m.e(4) == rot_e(*orientation, 3),
        m.e(5) == rot_e(*orientation, 4),
        m.e(6) == rot_e(*orientation, 5),
        m.e(7) == position.y as int,
        m.e(8) == rot_e(*orientation, 6),
        m.e(9) == rot_e(*orientation, 7),
        m.e(10) == rot_e(*orientation, 8),
        m.e(11) == position.z as int,
{
    let mut m = Matrix4::new();
    m.set_orientation_and_pos(orientation, position);
    m
}

/// A rigid body: six degrees of freedom and the derived world-space data.
pub struct RigidBody {
    pub inverse_mass: i64,
    pub linear_damping: i64,
    pub angular_damping: i64,
    pub position: Vec3,
    pub orientation: Quaternion,
    pub velocity: Vec3,
    pub acceleration: Vec3,
    /// The angular velocity.
    pub rotation: Vec3,
    /// Derived: converts body space to world space; recomputed from position
    /// and orientation after every step, never set directly.
    pub transform_matrix: Matrix4,
    /// The body-space inverse inertia tensor, fixed once set.
    pub inverse_inertia_tensor: Matrix3,
    /// Derived: the inverse inertia tensor in world space; recomputed from
    /// the orientation after every step, never set directly.
    pub inverse_inertia_tensor_world: Matrix3,
    pub is_awake: bool,
    pub force_accum: Vec3,
    pub torque_accum: Vec3,
}

impl RigidBody {
    /// Well-formedness: both dampings lie in `(0, 1]` and the inverse mass is
    /// non-negative and within the simulation range.
    pub open spec fn valid(self) -> bool {
        &&& 0 < self.linear_damping <= SCALE
        &&& 0 < self.angular_damping <= SCALE
        &&& 0 <= self.inverse_mass <= LIM
    }

    /// The instantaneous linear acceleration of one step.
    pub open spec fn rb_resulting_acc(self) -> V3 {
        vadd(vv(self.acceleration), vscale(vv(self.force_accum), self.inverse_mass as int))
    }

    /// The angular acceleration of one step: the world-space inverse inertia
    /// tensor applied to the accumulated torque.
    pub open spec fn rb_ang_acc(self) -> V3 {
        m3_xform(self.inverse_inertia_tensor_world, self.torque_accum)
    }

    /// Where one step over `dt` puts the position.
    pub open spec fn rb_new_position(self, dt: int) -> V3 {
        vadd(vv(self.position), vscale(vv(self.velocity), dt))
    }

    /// Where one step over `dt` puts the velocity.
    pub open spec fn rb_new_velocity(self, dt: int) -> V3 {
        vscale(
            vadd(vv(self.velocity), vscale(self.rb_resulting_acc(), dt)),
            fpow(self.linear_damping as int, dt),
        )
    }

    /// Where one step over `dt` puts the angular velocity.
    pub open spec fn rb_new_rotation(self, dt: int) -> V3 {
        vscale(
            vadd(vv(self.rotation), vscale(self.rb_ang_acc(), dt)),
            fpow(self.angular_damping as int, dt),
        )
    }

    /// Where one step over `dt` puts the orientation: the old orientation
    /// integrated by the new angular velocity and scaled back to unit length.
    pub open spec fn rb_new_orientation(self, dt: int) -> Quaternion {
        qnormalized(
            q_after_scaled_vector(self.orientation, cast3(self.rb_new_rotation(dt)), dt),
        )
    }

    /// The machine limits one rigid-body step over `dt` needs.
    pub open spec fn rb_integrate_fits(self, dt: int) -> bool {
        let newrot = cast3(self.rb_new_rotation(dt));
        let q1 = q_after_scaled_vector(self.orientation, newrot, dt);
        let qn = qnormalized(q1);
        &&& bounded_vec(self.velocity)
        &&& bounded_vec(self.force_accum)
        &&& bounded_vec(self.rotation)
        &&& bounded_vec(self.torque_accum)
        &&& bounded_quat(self.orientation)
        &&& self.inverse_inertia_tensor_world.wf()
        &&& self.inverse_inertia_tensor.wf()
        &&& bounded(dt)
        &&& fits3(self.rb_new_position(dt))
        &&& bounded3(self.rb_resulting_acc())
        &&& bounded3(vadd(vv(self.velocity), vscale(self.rb_resulting_acc(), dt)))
        &&& bounded3(self.rb_ang_acc())
        &&& bounded3(vadd(vv(self.rotation), vscale(self.rb_ang_acc(), dt)))
        &&& bounded3(vscale(vv(newrot), dt))
        &&& bounded(qmul_r(vec_quat(newrot, dt), self.orientation))
        &&& bounded(qmul_i(vec_quat(newrot, dt), self.orientation))
        &&& bounded(qmul_j(vec_quat(newrot, dt), self.orientation))
        &&& bounded(qmul_k(vec_quat(newrot, dt), self.orientation))
        &&& bounded_quat(q1)
        &&& (forall|i: int| 0 <= i < 9 ==> iabs(#[trigger] rot_e(qn, i)) <= MAT_LIM)
        &&& iabs(self.rb_new_position(dt).x) <= MAT_LIM
        &&& iabs(self.rb_new_position(dt).y) <= MAT_LIM
        &&& iabs(self.rb_new_position(dt).z) <= MAT_LIM
    }

    /// A fresh rigid body: at rest at the origin with the identity
    /// orientation, unit mass, default dampings, and a zero inertia tensor
    /// (to be set before use).
    pub fn new() -> (b: RigidBody)
        ensures
            b.inverse_mass == SCALE,
            b.linear_damping == DEFAULT_DAMPING,
            b.angular_damping == DEFAULT_DAMPING,
            b.position == (Vec3 { x: 0, y: 0, z: 0 }),
            b.orientation == (Quaternion { r: SCALE, i: 0, j: 0, k: 0 }),
            b.velocity == (Vec3 { x: 0, y: 0, z: 0 }),
            b.acceleration == (Vec3 { x: 0, y: 0, z: 0 }),
            b.rotation == (Vec3 { x: 0, y: 0, z: 0 }),
            b.force_accum == (Vec3 { x: 0, y: 0, z: 0 }),
            b.torque_accum == (Vec3 { x: 0, y: 0, z: 0 }),
            b.is_awake == false,
            forall|i: int| 0 <= i < 9 ==> #[trigger] b.inverse_inertia_tensor.e(i) == 0,
            forall|i: int| 0 <= i < 9 ==> #[trigger] b.inverse_inertia_tensor_world.e(i) == 0,
            b.transform_matrix.e(0) == SCALE && b.transform_matrix.e(5) == SCALE
                && b.transform_matrix.e(10) == SCALE,
            b.valid(),
    {
        RigidBody {
            inverse_mass: SCALE,
            linear_damping: DEFAULT_DAMPING,
            angular_damping: DEFAULT_DAMPING,
            position: Vec3::new(),
            orientation: Quaternion::identity(),
            velocity: Vec3::new(),
            acceleration: Vec3::new(),
            rotation: Vec3::new(),
            transform_matrix: Matrix4 { data: [SCALE, 0, 0, 0, 0, SCALE, 0, 0, 0, 0, SCALE, 0] },
            inverse_inertia_tensor: Matrix3::new(),
            inverse_inertia_tensor_world: Matrix3::new(),
            is_awake: false,
            force_accum: Vec3::new(),
            torque_accum: Vec3::new(),
        }
    }

    /// Adds a force applied at the center of mass: no torque.
    pub fn add_force(&mut self, f: &Vec3)
        requires
            fits64(old(self).force_accum.x + f.x),
            fits64(old(self).force_accum.y + f.y),
            fits64(old(self).force_accum.z + f.z),
        ensures
            vv(final(self).force_accum) == vadd(vv(old(self).force_accum), vv(*f)),
            *final(self) == (RigidBody {
                force_accum: final(self).force_accum,
                is_awake: true,
                ..*old(self)
            }),
    {
        self.force_accum = Vec3 {
            x: self.force_accum.x + f.x,
            y: self.force_accum.y + f.y,
            z: self.force_accum.z + f.z,
        };
        self.is_awake = true;
    }

    /// Adds a force applied at a world-space point: the force goes into the
    /// force accumulator and its moment about the center of mass — the offset
    /// from the position, crossed with the force — into the torque
    /// accumulator.
    pub fn add_force_at_point(&mut self, force: &Vec3, point: &Vec3)
        requires
            bounded3(vsub(vv(*point), vv(old(self).position))),
            bounded_vec(*force),
            fits3(vadd(vv(old(self).force_accum), vv(*force))),
            fits3(
                vadd(
                    vv(old(self).torque_accum),
                    vcross(vsub(vv(*point), vv(old(self).position)), vv(*force)),
                ),
            ),
        ensures
            vv(final(self).force_accum) == vadd(vv(old(self).force_accum), vv(*force)),
            vv(final(self).torque_accum) == vadd(
                vv(old(self).torque_accum),
                vcross(vsub(vv(*point), vv(old(self).position)), vv(*force)),
            ),
            *final(self) == (RigidBody {
                force_accum: final(self).force_accum,
                torque_accum: final(self).torque_accum,
                is_awake: true,
                ..*old(self)
            }),
    {
        let rel = point.sub(self.position);
        let moment = rel.vector_product(*force);
        proof {
            lemma_fmul_bound(rel.y as int, force.z as int);
            lemma_fmul_bound(rel.z as int, force.y as int);
            lemma_fmul_bound(rel.z as int, force.x as int);
            lemma_fmul_bound(rel.x as int, force.z as int);
            lemma_fmul_bound(rel.x as int, force.y as int);
            lemma_fmul_bound(rel.y as int, force.x as int);
        }
        self.force_accum = Vec3 {
            x: self.force_accum.x + force.x,
            y: self.force_accum.y + force.y,
            z: self.force_accum.z + force.z,
        };
        self.torque_accum = Vec3 {
            x: self.torque_accum.x + moment.x,
            y: self.torque_accum.y + moment.y,
            z: self.torque_accum.z + moment.z,
        };
        self.is_awake = true;
    }

    /// Adds a force applied at a body-space point, first carried into world
    /// space by the current transform.
    pub fn add_force_at_body_point(&mut self, force: &Vec3, point: &Vec3)
        requires
            old(self).transform_matrix.wf(),
            bounded_vec(*point),
            bounded_vec(*force),
            fits3(crate::matrix::m4_xform(old(self).transform_matrix, *point)),
            bounded3(
                vsub(
                    vv(cast3(crate::matrix::m4_xform(old(self).transform_matrix, *point))),
                    vv(old(self).position),
                ),
            ),
            fits3(vadd(vv(old(self).force_accum), vv(*force))),
            fits3(
                vadd(
                    vv(old(self).torque_accum),
                    vcross(
                        vsub(
                            vv(cast3(crate::matrix::m4_xform(old(self).transform_matrix, *point))),
                            vv(old(self).position),
                        ),
                        vv(*force),
                    ),
                ),
            ),
        ensures
            vv(final(self).force_accum) == vadd(vv(old(self).force_accum), vv(*force)),
            vv(final(self).torque_accum) == vadd(
                vv(old(self).torque_accum),
                vcross(
                    vsub(
                        vv(cast3(crate::matrix::m4_xform(old(self).transform_matrix, *point))),
                        vv(old(self).position),
                    ),
                    vv(*force),
                ),
            ),
            *final(self) == (RigidBody {
                force_accum: final(self).force_accum,
                torque_accum: final(self).torque_accum,
                is_awake: true,
                ..*old(self)
            }),
    {
        let world_point = self.get_point_in_world_space(point);
        self.add_force_at_point(force, &world_point);
    }

    /// The body-space point carried into world space by the current
    /// transform.
    pub fn get_point_in_world_space(&self, point: &Vec3) -> (r: Vec3)
        requires
            self.transform_matrix.wf(),
            bounded_vec(*point),
        ensures
            vv(r) == crate::matrix::m4_xform(self.transform_matrix, *point),
    {
        self.transform_matrix.transform(point)
    }

    /// Empties both accumulators.
    pub fn clear_accumulators(&mut self)
        ensures
            *final(self) == (RigidBody {
                force_accum: Vec3 { x: 0, y: 0, z: 0 },
                torque_accum: Vec3 { x: 0, y: 0, z: 0 },
                ..*old(self)
            }),
    {
        self.force_accum = Vec3 { x: 0, y: 0, z: 0 };
        self.torque_accum = Vec3 { x: 0, y: 0, z: 0 };
    }

    /// Stores the body-space inertia tensor by inverting it; a singular
    /// tensor is degenerate and is stored as given, uninverted, for the
    /// caller to detect.
    pub fn set_inertia_tensor(&mut self, inertia_tensor: Matrix3)
        requires
            inertia_tensor.wf(),
        ensures
            det3(inertia_tensor) == 0 ==> final(self).inverse_inertia_tensor == inertia_tensor,
            det3(inertia_tensor) != 0 ==> m3_inverse_entries(
                inertia_tensor,
                final(self).inverse_inertia_tensor,
            ),
            *final(self) == (RigidBody {
                inverse_inertia_tensor: final(self).inverse_inertia_tensor,
                ..*old(self)
            }),
    {
        let mut it = inertia_tensor;
        it.invert();
        self.inverse_inertia_tensor = it;
    }

    /// Recomputes the derived data — the unit orientation, the transform
    /// matrix and the world-space inverse inertia tensor — from the current
    /// position and orientation. Consumers may read the derived fields only
    /// after this ran.
    pub fn calculate_derived_data(&mut self)
        requires
            bounded_quat(old(self).orientation),
            old(self).inverse_inertia_tensor.wf(),
            forall|i: int|
                0 <= i < 9 ==> iabs(#[trigger] rot_e(qnormalized(old(self).orientation), i))
                    <= MAT_LIM,
            iabs(old(self).position.x as int) <= MAT_LIM,
            iabs(old(self).position.y as int) <= MAT_LIM,
            iabs(old(self).position.z as int) <= MAT_LIM,
        ensures
            final(self).orientation == qnormalized(old(self).orientation),
            derived_transform_ok(*final(self)),
            *final(self) == (RigidBody {
                orientation: final(self).orientation,
                transform_matrix: final(self).transform_matrix,
                inverse_inertia_tensor_world: final(self).inverse_inertia_tensor_world,
                ..*old(self)
            }),
    {
        self.orientation = self.orientation.normalize();
        proof {
            lemma_rot_matrix_wf(self.orientation, *old(self));
        }
        self.transform_matrix = calculate_transform_matrix(&self.position, &self.orientation);
        let tm = self.transform_matrix;
        transform_inertia_tensor(
            &mut self.inverse_inertia_tensor_world,
            &self.inverse_inertia_tensor,
            &tm,
        );
    }
}

/// The derived fields agree with position, orientation and the body-space
/// tensor: the transform is the orientation's rotation with the position as
/// translation, and the world tensor is the body tensor carried by it.
pub open spec fn derived_transform_ok(b: RigidBody) -> bool {
    &&& b.transform_matrix.e(0) == rot_e(b.orientation, 0)
    &&& b.transform_matrix.e(1) == rot_e(b.orientation, 1)
    &&& b.transform_matrix.e(2) == rot_e(b.orientation, 2)
    &&& b.transform_matrix.e(3) == b.position.x as int
    &&& b.transform_matrix.e(4) == rot_e(b.orientation, 3)
    &&& b.transform_matrix.e(5) == rot_e(b.orientation, 4)
    &&& b.transform_matrix.e(6) == rot_e(b.orientation, 5)
    &&& b.transform_matrix.e(7) == b.position.y as int
    &&& b.transform_matrix.e(8) == rot_e(b.orientation, 6)
    &&& b.transform_matrix.e(9) == rot_e(b.orientation, 7)
    &&& b.transform_matrix.e(10) == rot_e(b.orientation, 8)
    &&& b.transform_matrix.e(11) == b.position.z as int
    &&& b.inverse_inertia_tensor_world.e(0) == iit_world_e(
        b.inverse_inertia_tensor,
        b.transform_matrix,
        0,
        0,
    )
    &&& b.inverse_inertia_tensor_world.e(1) == iit_world_e(
        b.inverse_inertia_tensor,
        b.transform_matrix,
        0,
        1,
    )
    &&& b.inverse_inertia_tensor_world.e(2) == iit_world_e(
        b.inverse_inertia_tensor,
        b.transform_matrix,
        0,
        2,
    )
    &&& b.inverse_inertia_tensor_world.e(3) == iit_world_e(
        b.inverse_inertia_tensor,
        b.transform_matrix,
        1,
        0,
    )
    &&& b.inverse_inertia_tensor_world.e(4) == iit_world_e(
        b.inverse_inertia_tensor,
        b.transform_matrix,
        1,
        1,
    )
    &&& b.inverse_inertia_tensor_world.e(5) == iit_world_e(
        b.inverse_inertia_tensor,
        b.transform_matrix,
        1,
        2,
    )
    &&& b.inverse_inertia_tensor_world.e(6) == iit_world_e(
        b.inverse_inertia_tensor,
        b.transform_matrix,
        2,
        0,
    )
    &&& b.inverse_inertia_tensor_world.e(7) == iit_world_e(
        b.inverse_inertia_tensor,
        b.transform_matrix,
        2,
        1,
    )
    &&& b.inverse_inertia_tensor_world.e(8) == iit_world_e(
        b.inverse_inertia_tensor,
        b.transform_matrix,
        2,
        2,
    )
}

/// The rotation-matrix entries of the normalized orientation are within the
/// matrix range whenever the caller's precondition says so.
proof fn lemma_rot_matrix_wf(q: Quaternion, b: RigidBody)
    requires
        q == qnormalized(b.orientation),
        forall|i: int|
            0 <= i < 9 ==> iabs(#[trigger] rot_e(qnormalized(b.orientation), i)) <= MAT_LIM,
    ensures
        iabs(rot_e(q, 0)) <= MAT_LIM,
        iabs(rot_e(q, 1)) <= MAT_LIM,
        iabs(rot_e(q, 2)) <= MAT_LIM,
        iabs(rot_e(q, 3)) <= MAT_LIM,
        iabs(rot_e(q, 4)) <= MAT_LIM,
        iabs(rot_e(q, 5)) <= MAT_LIM,
        iabs(rot_e(q, 6)) <= MAT_LIM,
        iabs(rot_e(q, 7)) <= MAT_LIM,
        iabs(rot_e(q, 8)) <= MAT_LIM,
{
}

impl RigidBody {
    /// Advances the body by one step of duration `duration`: the position
    /// moves by the old velocity; the velocity picks up the instantaneous
    /// acceleration and the angular velocity the angular acceleration, both
    /// then damped exponentially; the orientation integrates the new angular
    /// velocity; the derived transform and world tensor are recomputed; and
    /// both accumulators are cleared. A zero duration or an immovable body is
    /// a no-op; a negative duration is rejected untouched.
    #[verifier::rlimit(60)]
    pub fn integrate(&mut self, duration: i64) -> (r: Result<(), SimError>)
        requires
            old(self).valid(),
            old(self).rb_integrate_fits(duration as int),
        ensures
            r is Err <==> duration < 0,
            duration < 0 ==> *final(self) == *old(self) && r == Err::<(), SimError>(
                SimError::InvalidMassOrTimestep,
            ),
            duration == 0 || old(self).inverse_mass == 0 ==> *final(self) == *old(self),
            duration > 0 && old(self).inverse_mass != 0 ==> {
                &&& final(self).position == cast3(old(self).rb_new_position(duration as int))
                &&& final(self).velocity == cast3(old(self).rb_new_velocity(duration as int))
                &&& final(self).rotation == cast3(old(self).rb_new_rotation(duration as int))
                &&& final(self).orientation == old(self).rb_new_orientation(duration as int)
                &&& derived_transform_ok(*final(self))
                &&& final(self).force_accum == (Vec3 { x: 0, y: 0, z: 0 })
                &&& final(self).torque_accum == (Vec3 { x: 0, y: 0, z: 0 })
                &&& final(self).inverse_mass == old(self).inverse_mass
                &&& final(self).linear_damping == old(self).linear_damping
                &&& final(self).angular_damping == old(self).angular_damping
                &&& final(self).acceleration == old(self).acceleration
                &&& final(self).inverse_inertia_tensor == old(self).inverse_inertia_tensor
            },
            final(self).valid(),
    {
        if duration < 0 {
            return Err(SimError::InvalidMassOrTimestep);
        }
        if duration == 0 || self.inverse_mass == 0 {
            return Ok(());
        }
        self.position.add_scaled(&self.velocity, duration);
        let mut resulting_acc = self.acceleration;
        resulting_acc.add_scaled(&self.force_accum, self.inverse_mass);
        self.velocity.add_scaled(&resulting_acc, duration);
        let ang_acc = self.inverse_inertia_tensor_world.transform(&self.torque_accum);
        self.rotation.add_scaled(&ang_acc, duration);
        let linear_factor = fx_pow(self.linear_damping, duration);
        self.velocity = self.velocity.mul(linear_factor);
        let angular_factor = fx_pow(self.angular_damping, duration);
        self.rotation = self.rotation.mul(angular_factor);
        proof {
            lemma_fmul_abs_le(
                vadd(
                    vv(old(self).rotation),
                    vscale(old(self).rb_ang_acc(), duration as int),
                ).x,
                fpow(old(self).angular_damping as int, duration as int),
            );
            lemma_fmul_abs_le(
                vadd(
                    vv(old(self).rotation),
                    vscale(old(self).rb_ang_acc(), duration as int),
                ).y,
                fpow(old(self).angular_damping as int, duration as int),
            );
            lemma_fmul_abs_le(
                vadd(
                    vv(old(self).rotation),
                    vscale(old(self).rb_ang_acc(), duration as int),
                ).z,
                fpow(old(self).angular_damping as int, duration as int),
            );
            crate::fixed::lemma_fpow_unit_range(
                old(self).angular_damping as int,
                duration as int,
            );
        }
        self.orientation.add_scaled_vector(&self.rotation, duration);
        self.calculate_derived_data();
        self.clear_accumulators();
        Ok(())
    }
}

} // verus!
