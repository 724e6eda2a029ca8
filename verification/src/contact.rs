//! Contacts between particles and their single-contact resolution.
//!
//! Particles live in one owned arena (a `Vec<Particle>`); a contact refers to
//! its one or two participants by index, and resolution looks the
//! participants up in the arena.

use vstd::prelude::*;

use crate::fixed::{
    bounded, fdiv, fmul, fx_div, fx_mul, iabs, lemma_fmul_abs_le, lemma_fmul_bound,
    lemma_fmul_comm, LIM, SCALE,
};
use crate::particle::Particle;
use crate::vector::{bounded3, bounded_vec, dot3, fits3, vadd, vscale, vsub, vv, vzero, Vec3, V3};
use crate::SimError;

verus! {

/// Every particle of an arena is well-formed.
pub open spec fn all_valid(ps: Seq<Particle>) -> bool {
    forall|i: int| 0 <= i < ps.len() ==> #[trigger] ps[i].valid()
}

/// A transient contact between the particle at index `a` and either the
/// particle at index `b` or fixed scenery (`b` absent), in world space.
#[derive(Clone, Copy, Debug)]
pub struct Contact {
    /// The first participant.
    pub a: usize,
    /// The second participant; absent for contacts with the scenery.
    pub b: Option<usize>,
    /// Restitution coefficient at the contact, in `[0, 1]`.
    pub restitution: i64,
    /// Unit contact normal, from the first participant's perspective.
    pub contact_normal: Vec3,
    /// Depth of interpenetration along the normal; non-positive means the
    /// participants do not overlap.
    pub penetration: i64,
}

/// A contact that refers into an arena of `n` particles correctly.
pub open spec fn contact_wf(c: Contact, n: nat) -> bool {
    &&& (c.a as nat) < n
    &&& match c.b {
        Some(j) => (j as nat) < n && j != c.a,
        None => true,
    }
    &&& 0 <= c.restitution <= SCALE
    &&& bounded_vec(c.contact_normal)
    &&& bounded(c.penetration as int)
}

/// The velocity of the second participant, or zero against scenery.
pub open spec fn second_velocity(ps: Seq<Particle>, c: Contact) -> V3 {
    match c.b {
        Some(j) => vv(ps[j as int].velocity),
        None => vzero(),
    }
}

/// The acceleration of the second participant, or zero against scenery.
pub open spec fn second_acceleration(ps: Seq<Particle>, c: Contact) -> V3 {
    match c.b {
        Some(j) => vv(ps[j as int].acceleration),
        None => vzero(),
    }
}

/// The velocity of the first participant relative to the second.
pub open spec fn rel_velocity(ps: Seq<Particle>, c: Contact) -> V3 {
    vsub(vv(ps[c.a as int].velocity), second_velocity(ps, c))
}

/// The acceleration of the first participant relative to the second.
pub open spec fn rel_acceleration(ps: Seq<Particle>, c: Contact) -> V3 {
    vsub(vv(ps[c.a as int].acceleration), second_acceleration(ps, c))
}

/// The separating velocity: the relative velocity projected onto the contact
/// normal. Negative means the participants are closing.
pub open spec fn sep_velocity(ps: Seq<Particle>, c: Contact) -> int {
    dot3(rel_velocity(ps, c), vv(c.contact_normal))
}

/// The closing velocity accumulated over `dt` by the relative acceleration
/// alone: what a resting contact picks up in one step without any collision.
pub open spec fn acc_sep_velocity(ps: Seq<Particle>, c: Contact, dt: int) -> int {
    fmul(dot3(rel_acceleration(ps, c), vv(c.contact_normal)), dt)
}

/// The summed inverse masses of the participants; zero means both are
/// immovable and the contact cannot be resolved.
pub open spec fn total_inverse_mass(ps: Seq<Particle>, c: Contact) -> int {
    ps[c.a as int].inverse_mass + match c.b {
        Some(j) => ps[j as int].inverse_mass as int,
        None => 0int,
    }
}

/// The separating velocity the impulse aims for: the closing velocity
/// reflected by the restitution, minus the part of the closing velocity that
/// this step's acceleration alone caused (so resting contacts do not bounce),
/// clamped to be non-negative.
pub open spec fn target_sep_velocity(ps: Seq<Particle>, c: Contact, dt: int) -> int {
    let base = fmul(-sep_velocity(ps, c), c.restitution as int);
    let acc_sep = acc_sep_velocity(ps, c, dt);
    if acc_sep < 0 {
        let adjusted = base + fmul(c.restitution as int, acc_sep);
        if adjusted < 0 {
            0int
        } else {
            adjusted
        }
    } else {
        base
    }
}

/// The impulse per unit of inverse mass, directed along the contact normal:
/// the velocity change to distribute, divided by the total inverse mass.
pub open spec fn impulse_per_imass(ps: Seq<Particle>, c: Contact, dt: int) -> V3 {
    vscale(
        vv(c.contact_normal),
        fdiv(target_sep_velocity(ps, c, dt) - sep_velocity(ps, c), total_inverse_mass(ps, c)),
    )
}

/// The particle with its velocity replaced by the given value.
pub open spec fn with_velocity(p: Particle, v: V3) -> Particle {
    Particle { velocity: Vec3 { x: v.x as i64, y: v.y as i64, z: v.z as i64 }, ..p }
}

/// The particle with its position replaced by the given value.
pub open spec fn with_position(p: Particle, v: V3) -> Particle {
    Particle { position: Vec3 { x: v.x as i64, y: v.y as i64, z: v.z as i64 }, ..p }
}

/// The arena after the velocity phase of resolving `c`: if the contact is
/// closing, each participant's velocity changes by the impulse per inverse
/// mass scaled by its own inverse mass — equal and opposite along the normal.
pub open spec fn velocities_resolved(ps: Seq<Particle>, c: Contact, dt: int) -> Seq<Particle> {
    if sep_velocity(ps, c) >= 0 {
        ps
    } else {
        let ipm = impulse_per_imass(ps, c, dt);
        let a = c.a as int;
        let pa = ps[a];
        let ps1 = ps.update(
            a,
            with_velocity(pa, vadd(vv(pa.velocity), vscale(ipm, pa.inverse_mass as int))),
        );
        match c.b {
            Some(j) => {
                let pb = ps1[j as int];
                ps1.update(
                    j as int,
                    with_velocity(pb, vsub(vv(pb.velocity), vscale(ipm, pb.inverse_mass as int))),
                )
            },
            None => ps1,
        }
    }
}

/// The arena after the interpenetration phase of resolving `c`: if the
/// participants overlap, each moves along the normal in proportion to its
/// inverse mass, so that the displacements sum to the penetration depth.
pub open spec fn positions_resolved(ps: Seq<Particle>, c: Contact) -> Seq<Particle> {
    if c.penetration <= 0 {
        ps
    } else {
        let mpm = vscale(
            vv(c.contact_normal),
            fdiv(c.penetration as int, total_inverse_mass(ps, c)),
        );
        let a = c.a as int;
        let pa = ps[a];
        let ps1 = ps.update(
            a,
            with_position(pa, vadd(vv(pa.position), vscale(mpm, pa.inverse_mass as int))),
        );
        match c.b {
            Some(j) => {
                let pb = ps1[j as int];
                ps1.update(
                    j as int,
                    with_position(pb, vsub(vv(pb.position), vscale(mpm, pb.inverse_mass as int))),
                )
            },
            None => ps1,
        }
    }
}

/// The arena after resolving one contact: velocity first, then penetration.
pub open spec fn contact_resolved(ps: Seq<Particle>, c: Contact, dt: int) -> Seq<Particle> {
    positions_resolved(velocities_resolved(ps, c, dt), c)
}

/// The machine limits computing a separating velocity needs.
pub open spec fn sep_fits(ps: Seq<Particle>, c: Contact) -> bool {
    &&& bounded_vec(ps[c.a as int].velocity)
    &&& match c.b {
        Some(j) => bounded_vec(ps[j as int].velocity),
        None => true,
    }
    &&& bounded3(rel_velocity(ps, c))
}

/// The machine limits the velocity phase of resolution needs: every
/// intermediate of the impulse computation stays within the fixed-point
/// range.
pub open spec fn vel_resolve_fits(ps: Seq<Particle>, c: Contact, dt: int) -> bool {
    &&& sep_fits(ps, c)
    &&& bounded_vec(ps[c.a as int].acceleration)
    &&& match c.b {
        Some(j) => bounded_vec(ps[j as int].acceleration),
        None => true,
    }
    &&& bounded3(rel_acceleration(ps, c))
    &&& bounded(dt)
    &&& bounded(sep_velocity(ps, c))
    &&& bounded(dot3(rel_acceleration(ps, c), vv(c.contact_normal)))
    &&& bounded(acc_sep_velocity(ps, c, dt))
    &&& bounded(fdiv(target_sep_velocity(ps, c, dt) - sep_velocity(ps, c), total_inverse_mass(ps, c)))
    &&& bounded3(impulse_per_imass(ps, c, dt))
}

/// The machine limits the interpenetration phase needs. Everything here reads
/// only positions, inverse masses and the contact itself, which the velocity
/// phase does not touch.
pub open spec fn pen_resolve_fits(ps: Seq<Particle>, c: Contact) -> bool {
    let mpm = vscale(
        vv(c.contact_normal),
        fdiv(c.penetration as int, total_inverse_mass(ps, c)),
    );
    &&& bounded(fdiv(c.penetration as int, total_inverse_mass(ps, c)))
    &&& bounded3(mpm)
    &&& fits3(
        vadd(vv(ps[c.a as int].position), vscale(mpm, ps[c.a as int].inverse_mass as int)),
    )
    &&& match c.b {
        Some(j) => fits3(
            vsub(vv(ps[j as int].position), vscale(mpm, ps[j as int].inverse_mass as int)),
        ),
        None => true,
    }
}

/// The machine limits resolving one contact needs.
pub open spec fn resolve_fits(ps: Seq<Particle>, c: Contact, dt: int) -> bool {
    vel_resolve_fits(ps, c, dt) && pen_resolve_fits(ps, c)
}

/// The velocity phase changes only the participants' velocities: positions,
/// masses, accelerations, damping and accumulators all stay, as does the
/// arena's length.
pub proof fn lemma_velocities_resolved_preserves(ps: Seq<Particle>, c: Contact, dt: int)
    requires
        contact_wf(c, ps.len()),
    ensures
        velocities_resolved(ps, c, dt).len() == ps.len(),
        forall|i: int|
            0 <= i < ps.len() ==> {
                let q = #[trigger] velocities_resolved(ps, c, dt)[i];
                q.position == ps[i].position && q.acceleration == ps[i].acceleration
                    && q.force_accum == ps[i].force_accum && q.damping == ps[i].damping
                    && q.inverse_mass == ps[i].inverse_mass
            },
{
}

impl Contact {
    /// The separating velocity of the contact in the given arena: relative
    /// velocity projected onto the contact normal; negative means closing.
    pub fn calculate_separating_velocity(&self, particles: &Vec<Particle>) -> (r: i64)
        requires
            contact_wf(*self, particles@.len()),
            sep_fits(particles@, *self),
        ensures
            r == sep_velocity(particles@, *self),
    {
        let va = particles[self.a].get_velocity();
        let rel = match self.b {
            Some(j) => va.sub(particles[j].get_velocity()),
            None => va,
        };
        rel.scalar_product(self.contact_normal)
    }

    /// The summed inverse masses of the participants.
    fn get_total_inverse_mass(&self, particles: &Vec<Particle>) -> (r: i64)
        requires
            contact_wf(*self, particles@.len()),
            all_valid(particles@),
        ensures
            r == total_inverse_mass(particles@, *self),
            0 <= r <= 2 * LIM,
    {
        proof {
            assert(particles@[self.a as int].valid());
        }
        let inv_a = particles[self.a].get_inverse_mass();
        match self.b {
            Some(j) => {
                proof {
                    assert(particles@[j as int].valid());
                }
                inv_a + particles[j].get_inverse_mass()
            },
            None => inv_a,
        }
    }

    /// The velocity phase: a closing contact gets an impulse along the normal
    /// that brings the separating velocity to its target, split between the
    /// participants in proportion to their inverse masses, equal and
    /// opposite. A separating or resting contact is left alone.
    fn resolve_velocity(&self, particles: &mut Vec<Particle>, duration: i64)
        requires
            contact_wf(*self, old(particles)@.len()),
            all_valid(old(particles)@),
            vel_resolve_fits(old(particles)@, *self, duration as int),
            total_inverse_mass(old(particles)@, *self) != 0,
        ensures
            final(particles)@ == velocities_resolved(old(particles)@, *self, duration as int),
            final(particles)@.len() == old(particles)@.len(),
            all_valid(final(particles)@),
    {
        let sep = self.calculate_separating_velocity(particles);
        if sep >= 0 {
            return ;
        }
        proof {
            lemma_fmul_abs_le(-sep as int, self.restitution as int);
        }
        let mut new_sep = fx_mul(-sep, self.restitution);
        let va = particles[self.a].get_acceleration();
        let acc_rel = match self.b {
            Some(j) => va.sub(particles[j].get_acceleration()),
            None => va,
        };
        let acc_dot = acc_rel.scalar_product(self.contact_normal);
        let acc_sep = fx_mul(acc_dot, duration);
        if acc_sep < 0 {
            proof {
                lemma_fmul_comm(self.restitution as int, acc_sep as int);
                lemma_fmul_abs_le(acc_sep as int, self.restitution as int);
            }
            new_sep = new_sep + fx_mul(self.restitution, acc_sep);
            if new_sep < 0 {
                new_sep = 0;
            }
        }
        let delta = new_sep - sep;
        proof {
            assert(new_sep == target_sep_velocity(particles@, *self, duration as int));
            assert(iabs(delta as int) <= 0x400_0000_0000);
        }
        let tim = self.get_total_inverse_mass(particles);
        let impulse = fx_div(delta, tim);
        let ipm = self.contact_normal.mul(impulse);
        let ghost ps0 = particles@;
        proof {
            assert(ps0[self.a as int].valid());
            assert(vv(ipm) == impulse_per_imass(ps0, *self, duration as int));
        }
        let mut pa = particles[self.a];
        let inv_a = pa.get_inverse_mass();
        proof {
            lemma_fmul_bound(ipm.x as int, inv_a as int);
            lemma_fmul_bound(ipm.y as int, inv_a as int);
            lemma_fmul_bound(ipm.z as int, inv_a as int);
        }
        let va2 = pa.get_velocity();
        pa.set_velocity(va2.add(ipm.mul(inv_a)));
        particles[self.a] = pa;
        match self.b {
            Some(j) => {
                let mut pb = particles[j];
                let inv_b = pb.get_inverse_mass();
                proof {
                    assert(ps0[j as int].valid());
                    lemma_fmul_bound(ipm.x as int, inv_b as int);
                    lemma_fmul_bound(ipm.y as int, inv_b as int);
                    lemma_fmul_bound(ipm.z as int, inv_b as int);
                }
                let vb = pb.get_velocity();
                pb.set_velocity(vb.sub(ipm.mul(inv_b)));
                particles[j] = pb;
            },
            None => {},
        }
    }

    /// The interpenetration phase: overlapping participants move apart along
    /// the normal, each by a share of the penetration proportional to its
    /// inverse mass, without touching velocities.
    fn resolve_interpenetration(&self, particles: &mut Vec<Particle>)
        requires
            contact_wf(*self, old(particles)@.len()),
            all_valid(old(particles)@),
            pen_resolve_fits(old(particles)@, *self),
            total_inverse_mass(old(particles)@, *self) != 0,
        ensures
            final(particles)@ == positions_resolved(old(particles)@, *self),
            final(particles)@.len() == old(particles)@.len(),
            all_valid(final(particles)@),
    {
        if self.penetration <= 0 {
            return ;
        }
        let tim = self.get_total_inverse_mass(particles);
        let move_amt = fx_div(self.penetration, tim);
        let mpm = self.contact_normal.mul(move_amt);
        let ghost ps0 = particles@;
        let mut pa = particles[self.a];
        proof {
            assert(ps0[self.a as int].valid());
        }
        let inv_a = pa.get_inverse_mass();
        proof {
            lemma_fmul_bound(mpm.x as int, inv_a as int);
            lemma_fmul_bound(mpm.y as int, inv_a as int);
            lemma_fmul_bound(mpm.z as int, inv_a as int);
        }
        let posa = pa.get_position();
        pa.set_position(posa.add(mpm.mul(inv_a)));
        particles[self.a] = pa;
        match self.b {
            Some(j) => {
                let mut pb = particles[j];
                let inv_b = pb.get_inverse_mass();
                proof {
                    assert(ps0[j as int].valid());
                    lemma_fmul_bound(mpm.x as int, inv_b as int);
                    lemma_fmul_bound(mpm.y as int, inv_b as int);
                    lemma_fmul_bound(mpm.z as int, inv_b as int);
                }
                let posb = pb.get_position();
                pb.set_position(posb.sub(mpm.mul(inv_b)));
                particles[j] = pb;
            },
            None => {},
        }
    }

    /// Resolves the contact in the arena: the velocity phase, then the
    /// interpenetration phase. A contact between two immovable participants
    /// cannot be resolved and is reported, leaving the arena untouched.
    pub fn resolve(&self, particles: &mut Vec<Particle>, duration: i64) -> (r: Result<
        (),
        SimError,
    >)
        requires
            contact_wf(*self, old(particles)@.len()),
            all_valid(old(particles)@),
            resolve_fits(old(particles)@, *self, duration as int),
        ensures
            r is Err <==> total_inverse_mass(old(particles)@, *self) == 0,
            r is Err ==> final(particles)@ == old(particles)@ && r == Err::<(), SimError>(
                SimError::UnresolvableContact,
            ),
            r is Ok ==> final(particles)@ == contact_resolved(
                old(particles)@,
                *self,
                duration as int,
            ),
            final(particles)@.len() == old(particles)@.len(),
            all_valid(final(particles)@),
    {
        let tim = self.get_total_inverse_mass(particles);
        if tim == 0 {
            return Err(SimError::UnresolvableContact);
        }
        let ghost ps0 = particles@;
        self.resolve_velocity(particles, duration);
        proof {
            lemma_velocities_resolved_preserves(ps0, *self, duration as int);
            assert(total_inverse_mass(particles@, *self) == total_inverse_mass(ps0, *self));
        }
        self.resolve_interpenetration(particles);
        Ok(())
    }
}

} // verus!
