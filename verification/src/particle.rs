//! The point-mass motion model.

use vstd::prelude::*;

use crate::fixed::{
    bounded, fdiv, fits64, fmul, fpow, fsqrt, fx_div, fx_mul, fx_pow, iabs, LIM, SCALE,
};
use crate::vector::{
    bounded3, bounded_vec, cast3, dot, fits3, mag, sqm, sqm3, vadd, vscale, vv, vzero, Vec3, V3,
};
use crate::SimError;

verus! {

/// The default linear damping of a fresh particle: just under one, removing
/// the energy that numerical integration error adds.
pub const DEFAULT_DAMPING: i64 = 1047527;

/// A point mass: translational kinematic state, a per-step force accumulator,
/// exponential damping, and an inverse mass (zero meaning immovable).
#[derive(Clone, Copy, Debug, PartialEq, Eq, Structural)]
pub struct Particle {
    pub position: Vec3,
    pub velocity: Vec3,
    pub acceleration: Vec3,
    pub force_accum: Vec3,
    pub damping: i64,
    pub inverse_mass: i64,
}

impl Particle {
    /// Well-formedness: damping lies in `(0, 1]` and the inverse mass is
    /// non-negative and within the simulation range. Constructors establish
    /// this and every method preserves it.
    pub open spec fn valid(self) -> bool {
        0 < self.damping <= SCALE && 0 <= self.inverse_mass <= LIM
    }

    /// The instantaneous acceleration used by one integration step: the base
    /// acceleration plus the accumulated force scaled by the inverse mass.
    pub open spec fn spec_resulting_acc(self) -> V3 {
        vadd(vv(self.acceleration), vscale(vv(self.force_accum), self.inverse_mass as int))
    }

    /// Where one integration step over `dt` puts the position: the old
    /// position moved by the old velocity times `dt`.
    pub open spec fn spec_new_position(self, dt: int) -> V3 {
        vadd(vv(self.position), vscale(vv(self.velocity), dt))
    }

    /// Where one integration step over `dt` puts the velocity: the old
    /// velocity plus acceleration times `dt`, damped by `damping^dt`.
    pub open spec fn spec_new_velocity(self, dt: int) -> V3 {
        vscale(
            vadd(vv(self.velocity), vscale(self.spec_resulting_acc(), dt)),
            fpow(self.damping as int, dt),
        )
    }

    /// The particle after one integration step over `dt`: unchanged when the
    /// duration is zero or the particle is immovable, else moved, accelerated
    /// and damped, with the force accumulator cleared.
    pub open spec fn spec_integrated(self, dt: int) -> Particle {
        if dt == 0 || self.inverse_mass == 0 {
            self
        } else {
            Particle {
                position: cast3(self.spec_new_position(dt)),
                velocity: cast3(self.spec_new_velocity(dt)),
                force_accum: Vec3 { x: 0, y: 0, z: 0 },
                ..self
            }
        }
    }

    /// The machine limits one integration step over `dt` needs: state and
    /// every intermediate of the step stay within the fixed-point range.
    pub open spec fn integrate_fits(self, dt: int) -> bool {
        &&& bounded_vec(self.velocity)
        &&& bounded_vec(self.force_accum)
        &&& bounded(dt)
        &&& fits3(self.spec_new_position(dt))
        &&& bounded3(self.spec_resulting_acc())
        &&& bounded3(vadd(vv(self.velocity), vscale(self.spec_resulting_acc(), dt)))
    }

    /// A fresh particle: at rest at the origin, with unit mass and the
    /// default damping.
    pub fn new() -> (p: Particle)
        ensures
            p.position == (Vec3 { x: 0, y: 0, z: 0 }),
            p.velocity == (Vec3 { x: 0, y: 0, z: 0 }),
            p.acceleration == (Vec3 { x: 0, y: 0, z: 0 }),
            p.force_accum == (Vec3 { x: 0, y: 0, z: 0 }),
            p.damping == DEFAULT_DAMPING,
            p.inverse_mass == SCALE,
            p.valid(),
    {
        Particle {
            position: Vec3::new(),
            velocity: Vec3::new(),
            acceleration: Vec3::new(),
            force_accum: Vec3::new(),
            damping: DEFAULT_DAMPING,
            inverse_mass: SCALE,
        }
    }

    /// Sets the mass by storing its reciprocal. A non-positive mass is
    /// invalid and is rejected without touching the particle.
    pub fn set_mass(&mut self, mass: i64) -> (r: Result<(), SimError>)
        ensures
            r is Err <==> mass <= 0,
            mass <= 0 ==> *final(self) == *old(self) && r == Err::<(), SimError>(
                SimError::InvalidMassOrTimestep,
            ),
            mass > 0 ==> final(self).inverse_mass == fdiv(SCALE as int, mass as int)
                && *final(self) == (Particle {
                    inverse_mass: final(self).inverse_mass,
                    ..*old(self)
                }),
            old(self).valid() ==> final(self).valid(),
    {
        if mass <= 0 {
            return Err(SimError::InvalidMassOrTimestep);
        }
        proof {
            vstd::arithmetic::div_mod::lemma_div_pos_is_pos(SCALE as int * SCALE, mass as int);
            vstd::arithmetic::div_mod::lemma_div_nonincreasing(SCALE as int * SCALE, mass as int);
        }
        self.inverse_mass = fx_div(SCALE, mass);
        Ok(())
    }

    /// Sets the inverse mass directly; zero makes the particle immovable.
    /// A negative inverse mass is invalid and is rejected.
    pub fn set_inverse_mass(&mut self, inverse_mass: i64) -> (r: Result<(), SimError>)
        requires
            inverse_mass <= LIM,
        ensures
            r is Err <==> inverse_mass < 0,
            inverse_mass < 0 ==> *final(self) == *old(self) && r == Err::<(), SimError>(
                SimError::InvalidMassOrTimestep,
            ),
            inverse_mass >= 0 ==> *final(self) == (Particle { inverse_mass, ..*old(self) }),
            old(self).valid() ==> final(self).valid(),
    {
        if inverse_mass < 0 {
            return Err(SimError::InvalidMassOrTimestep);
        }
        self.inverse_mass = inverse_mass;
        Ok(())
    }

    /// Advances the particle by one step of duration `duration`, by
    /// semi-implicit Euler integration: the position moves by the old
    /// velocity, the velocity picks up the instantaneous acceleration and is
    /// then damped by `damping^duration`, and the force accumulator is
    /// cleared. A zero duration or an immovable particle is a no-op; a
    /// negative duration is rejected without touching the particle.
    pub fn integrate(&mut self, duration: i64) -> (r: Result<(), SimError>)
        requires
            old(self).valid(),
            old(self).integrate_fits(duration as int),
        ensures
            r is Err <==> duration < 0,
            duration < 0 ==> *final(self) == *old(self) && r == Err::<(), SimError>(
                SimError::InvalidMassOrTimestep,
            ),
            duration == 0 || old(self).inverse_mass == 0 ==> *final(self) == *old(self),
            duration > 0 && old(self).inverse_mass != 0 ==> {
                &&& vv(final(self).position) == old(self).spec_new_position(duration as int)
                &&& vv(final(self).velocity) == old(self).spec_new_velocity(duration as int)
                &&& final(self).force_accum == (Vec3 { x: 0, y: 0, z: 0 })
                &&& final(self).acceleration == old(self).acceleration
                &&& final(self).damping == old(self).damping
                &&& final(self).inverse_mass == old(self).inverse_mass
            },
            duration >= 0 ==> *final(self) == old(self).spec_integrated(duration as int),
            final(self).valid(),
    {
        if duration < 0 {
            return Err(SimError::InvalidMassOrTimestep);
        }
        if duration == 0 || self.inverse_mass == 0 {
            return Ok(());
        }
        self.position.add_scaled(&self.velocity, duration);
        let mut resulting_acc = self.acceleration;
        resulting_acc.add_scaled(&self.force_accum, self.inverse_mass);
        self.velocity.add_scaled(&resulting_acc, duration);
        let damp_factor = fx_pow(self.damping, duration);
        self.velocity = self.velocity.mul(damp_factor);
        self.clear_accumulator();
        Ok(())
    }

    /// The stored kinetic energy, `m * |v|^2 / 2`; an immovable particle
    /// reports zero.
    pub fn get_kinetic_energy(&self) -> (r: i64)
        requires
            self.valid(),
            bounded_vec(self.velocity),
            bounded(sqm(self.velocity)),
        ensures
            self.inverse_mass == 0 ==> r == 0,
            self.inverse_mass != 0 ==> r == fmul(
                fmul((SCALE / 2) as int, fdiv(SCALE as int, self.inverse_mass as int)),
                sqm(self.velocity),
            ),
    {
        if self.inverse_mass == 0 {
            return 0;
        }
        proof {
            vstd::arithmetic::div_mod::lemma_div_pos_is_pos(
                SCALE as int * SCALE,
                self.inverse_mass as int,
            );
            vstd::arithmetic::div_mod::lemma_div_nonincreasing(
                SCALE as int * SCALE,
                self.inverse_mass as int,
            );
            crate::fixed::lemma_fmul_unit_range(
                fdiv(SCALE as int, self.inverse_mass as int),
                (SCALE / 2) as int,
            );
            assert(fdiv(SCALE as int, self.inverse_mass as int) * ((SCALE / 2) as int) == (
            (SCALE / 2) as int) * fdiv(SCALE as int, self.inverse_mass as int))
                by (nonlinear_arith);
        }
        let mass = fx_div(SCALE, self.inverse_mass);
        let half_mass = fx_mul(SCALE / 2, mass);
        let s = self.velocity.square_magnitude();
        fx_mul(half_mass, s)
    }

    /// The magnitude of the current velocity.
    pub fn get_velocity_magnitude(&self) -> (r: i64)
        requires
            bounded_vec(self.velocity),
        ensures
            r == mag(self.velocity),
    {
        self.velocity.magnitude()
    }

    /// Whether the particle is immovable (inverse mass zero).
    pub fn is_infinite_mass(&self) -> (r: bool)
        ensures
            r <==> self.inverse_mass == 0,
    {
        self.inverse_mass == 0
    }

    /// The mass, the reciprocal of the stored inverse mass; meaningless for
    /// an immovable particle, which has none.
    pub fn get_mass(&self) -> (r: i64)
        requires
            self.valid(),
            self.inverse_mass != 0,
        ensures
            r == fdiv(SCALE as int, self.inverse_mass as int),
    {
        fx_div(SCALE, self.inverse_mass)
    }

    pub fn get_inverse_mass(&self) -> (r: i64)
        ensures
            r == self.inverse_mass,
    {
        self.inverse_mass
    }

    pub fn get_damping(&self) -> (r: i64)
        ensures
            r == self.damping,
    {
        self.damping
    }

    /// Sets the per-second damping coefficient, which must lie in `(0, 1]`.
    pub fn set_damping(&mut self, damping: i64)
        requires
            0 < damping <= SCALE,
        ensures
            *final(self) == (Particle { damping, ..*old(self) }),
            old(self).valid() ==> final(self).valid(),
    {
        self.damping = damping;
    }

    pub fn get_position(&self) -> (r: Vec3)
        ensures
            r == self.position,
    {
        self.position
    }

    pub fn set_position(&mut self, p: Vec3)
        ensures
            *final(self) == (Particle { position: p, ..*old(self) }),
    {
        self.position = p;
    }

    pub fn get_velocity(&self) -> (r: Vec3)
        ensures
            r == self.velocity,
    {
        self.velocity
    }

    pub fn set_velocity(&mut self, v: Vec3)
        ensures
            *final(self) == (Particle { velocity: v, ..*old(self) }),
    {
        self.velocity = v;
    }

    pub fn get_acceleration(&self) -> (r: Vec3)
        ensures
            r == self.acceleration,
    {
        self.acceleration
    }

    pub fn set_acceleration(&mut self, a: Vec3)
        ensures
            *final(self) == (Particle { acceleration: a, ..*old(self) }),
    {
        self.acceleration = a;
    }

    /// Accumulates a base acceleration, as a constant field like gravity.
    pub fn add_acceleration(&mut self, acceleration: Vec3)
        requires
            fits64(old(self).acceleration.x + acceleration.x),
            fits64(old(self).acceleration.y + acceleration.y),
            fits64(old(self).acceleration.z + acceleration.z),
        ensures
            final(self).acceleration.x == old(self).acceleration.x + acceleration.x,
            final(self).acceleration.y == old(self).acceleration.y + acceleration.y,
            final(self).acceleration.z == old(self).acceleration.z + acceleration.z,
            *final(self) == (Particle { acceleration: final(self).acceleration, ..*old(self) }),
    {
        self.acceleration = Vec3 {
            x: self.acceleration.x + acceleration.x,
            y: self.acceleration.y + acceleration.y,
            z: self.acceleration.z + acceleration.z,
        };
    }

    pub fn get_force_accum(&self) -> (r: Vec3)
        ensures
            r == self.force_accum,
    {
        self.force_accum
    }

    /// Adds a force into the accumulator for the next integration step.
    pub fn add_force(&mut self, force: Vec3)
        requires
            fits64(old(self).force_accum.x + force.x),
            fits64(old(self).force_accum.y + force.y),
            fits64(old(self).force_accum.z + force.z),
        ensures
            final(self).force_accum.x == old(self).force_accum.x + force.x,
            final(self).force_accum.y == old(self).force_accum.y + force.y,
            final(self).force_accum.z == old(self).force_accum.z + force.z,
            *final(self) == (Particle { force_accum: final(self).force_accum, ..*old(self) }),
    {
        self.force_accum = Vec3 {
            x: self.force_accum.x + force.x,
            y: self.force_accum.y + force.y,
            z: self.force_accum.z + force.z,
        };
    }

    /// Empties the force accumulator.
    pub fn clear_accumulator(&mut self)
        ensures
            *final(self) == old(self).spec_cleared(),
    {
        self.force_accum = Vec3 { x: 0, y: 0, z: 0 };
    }

    /// The particle with its force accumulator emptied.
    pub open spec fn spec_cleared(self) -> Particle {
        Particle { force_accum: Vec3 { x: 0, y: 0, z: 0 }, ..self }
    }
}

/// Clearing the force accumulator twice in a row is the same as clearing it
/// once.
pub proof fn lemma_clear_accumulator_idempotent(p: Particle)
    ensures
        p.spec_cleared().spec_cleared() == p.spec_cleared(),
{
}

/// The particle after `n` integration steps of duration `dt` each.
pub open spec fn integrated_n(p: Particle, dt: int, n: nat) -> Particle
    decreases n,
{
    if n == 0 {
        p
    } else {
        integrated_n(p, dt, (n - 1) as nat).spec_integrated(dt)
    }
}

/// Under damping alone — no accumulated force and no base acceleration —
/// integration never increases the speed, however many steps of whatever
/// non-negative duration are taken: the damping coefficient lies in `(0, 1]`,
/// so each step scales the velocity by a factor of at most one.
pub proof fn lemma_damping_never_speeds_up_many(p: Particle, dt: int, n: nat)
    requires
        p.valid(),
        p.acceleration == (Vec3 { x: 0, y: 0, z: 0 }),
        p.force_accum == (Vec3 { x: 0, y: 0, z: 0 }),
        bounded_vec(p.velocity),
        dt >= 0,
    ensures
        sqm(integrated_n(p, dt, n).velocity) <= sqm(p.velocity),
        mag(integrated_n(p, dt, n).velocity) <= mag(p.velocity),
        integrated_n(p, dt, n).valid(),
        integrated_n(p, dt, n).acceleration == p.acceleration,
        integrated_n(p, dt, n).force_accum == p.force_accum,
        integrated_n(p, dt, n).damping == p.damping,
        integrated_n(p, dt, n).inverse_mass == p.inverse_mass,
        bounded_vec(integrated_n(p, dt, n).velocity),
    decreases n,
{
    lemma_fmul_self_nonneg_all(p.velocity);
    crate::vector::lemma_isqrt_monotone(0, sqm(p.velocity) * SCALE);
    if n > 0 {
        lemma_damping_never_speeds_up_many(p, dt, (n - 1) as nat);
        let q = integrated_n(p, dt, (n - 1) as nat);
        let w = q.spec_integrated(dt);
        if dt != 0 && q.inverse_mass != 0 {
            lemma_damping_never_speeds_up(q, dt);
            let nv = q.spec_new_velocity(dt);
            assert(w.velocity == cast3(nv));
            assert(vv(w.velocity) == nv);
            lemma_fmul_self_nonneg_all(w.velocity);
            crate::vector::lemma_isqrt_monotone(
                sqm(w.velocity) * SCALE,
                sqm(p.velocity) * SCALE,
            );
        }
    }
}

/// Each squared component of a vector is non-negative.
proof fn lemma_fmul_self_nonneg_all(v: Vec3)
    ensures
        0 <= fmul(v.x as int, v.x as int),
        0 <= fmul(v.y as int, v.y as int),
        0 <= fmul(v.z as int, v.z as int),
{
    crate::vector::lemma_fmul_self_nonneg(v.x as int);
    crate::vector::lemma_fmul_self_nonneg(v.y as int);
    crate::vector::lemma_fmul_self_nonneg(v.z as int);
}

/// Under damping alone — no accumulated force and no base acceleration — one
/// integration step never increases the speed: with a damping coefficient in
/// `(0, 1]` the new velocity's squared magnitude, and so its magnitude, is at
/// most the old one's, for every non-negative duration.
pub proof fn lemma_damping_never_speeds_up(p: Particle, dt: int)
    requires
        p.valid(),
        p.acceleration == (Vec3 { x: 0, y: 0, z: 0 }),
        p.force_accum == (Vec3 { x: 0, y: 0, z: 0 }),
        dt >= 0,
    ensures
        sqm3(p.spec_new_velocity(dt)) <= sqm(p.velocity),
        fsqrt(sqm3(p.spec_new_velocity(dt))) <= mag(p.velocity),
        iabs(p.spec_new_velocity(dt).x) <= iabs(p.velocity.x as int),
        iabs(p.spec_new_velocity(dt).y) <= iabs(p.velocity.y as int),
        iabs(p.spec_new_velocity(dt).z) <= iabs(p.velocity.z as int),
{
    let f = fpow(p.damping as int, dt);
    crate::fixed::lemma_fpow_unit_range(p.damping as int, dt);
    vstd::arithmetic::div_mod::lemma_div_of0(SCALE as int);
    assert(p.spec_resulting_acc() == vzero());
    let w = p.spec_new_velocity(dt);
    assert(w == vscale(vv(p.velocity), f));
    crate::fixed::lemma_fmul_abs_le(p.velocity.x as int, f);
    crate::fixed::lemma_fmul_abs_le(p.velocity.y as int, f);
    crate::fixed::lemma_fmul_abs_le(p.velocity.z as int, f);
    crate::fixed::lemma_fmul_sq_monotone(w.x, p.velocity.x as int);
    crate::fixed::lemma_fmul_sq_monotone(w.y, p.velocity.y as int);
    crate::fixed::lemma_fmul_sq_monotone(w.z, p.velocity.z as int);
    crate::vector::lemma_fmul_self_nonneg(w.x);
    crate::vector::lemma_fmul_self_nonneg(w.y);
    crate::vector::lemma_fmul_self_nonneg(w.z);
    crate::vector::lemma_isqrt_monotone(sqm3(w) * SCALE, sqm(p.velocity) * SCALE);
}

} // verus!
