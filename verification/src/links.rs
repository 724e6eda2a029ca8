//! Link constraints: cables and rods between two particles, which yield a
//! contact when the current geometry violates the constraint.

use vstd::prelude::*;

use crate::contact::{contact_wf, Contact};
use crate::fixed::{bounded, isqrt, lemma_isqrt_props, LIM, SCALE};
use crate::particle::Particle;
use crate::vector::{
    bounded3, bounded_vec, cast3, lemma_fmul_self_nonneg, mag3, sqm3, vneg, vnorm3, vsub, vv,
    Vec3, V3,
};

verus! {

/// The separation of two particles of the arena: the vector from the first
/// to the second.
pub open spec fn separation(ps: Seq<Particle>, i: int, j: int) -> V3 {
    vsub(vv(ps[j].position), vv(ps[i].position))
}

/// The distance between two particles of the arena.
pub open spec fn distance(ps: Seq<Particle>, i: int, j: int) -> int {
    mag3(separation(ps, i, j))
}

/// Two distinct indices into an arena of `n` particles, with positions the
/// distance computation accepts.
pub open spec fn link_wf(ps: Seq<Particle>, i: int, j: int) -> bool {
    &&& 0 <= i < ps.len()
    &&& 0 <= j < ps.len()
    &&& i != j
    &&& bounded_vec(ps[i].position)
    &&& bounded_vec(ps[j].position)
    &&& bounded3(separation(ps, i, j))
    &&& bounded(sqm3(separation(ps, i, j)))
}

/// The distance between linked particles is non-negative and bounded when
/// the squared separation is.
pub proof fn lemma_distance_range(ps: Seq<Particle>, i: int, j: int)
    requires
        bounded(sqm3(separation(ps, i, j))),
        0 <= sqm3(separation(ps, i, j)),
    ensures
        0 <= distance(ps, i, j) <= 0x4000_0000,
{
    let s = sqm3(separation(ps, i, j));
    lemma_isqrt_props(s * SCALE);
    let r = isqrt(s * SCALE);
    if r > 0x4000_0000 {
        assert(false) by (nonlinear_arith)
            requires
                r > 0x4000_0000,
                r * r <= s * SCALE,
                s <= LIM,
                SCALE == 1048576,
                LIM == 0x100_0000_0000,
        ;
    }
}

/// The contact a cable yields, if any: nothing while the distance is within
/// the maximum length; otherwise a contact whose normal points from the first
/// particle toward the second and whose penetration is the excess length, so
/// that resolution draws the particles together.
pub open spec fn cable_contact(c: Cable, ps: Seq<Particle>) -> Option<Contact> {
    let i = c.particles.0 as int;
    let j = c.particles.1 as int;
    if distance(ps, i, j) <= c.max_length {
        None
    } else {
        Some(
            Contact {
                a: c.particles.0,
                b: Some(c.particles.1),
                restitution: c.restitution,
                contact_normal: cast3(vnorm3(separation(ps, i, j))),
                penetration: (distance(ps, i, j) - c.max_length) as i64,
            },
        )
    }
}

/// The contact a rod yields, if any: nothing at exactly the rod's length;
/// otherwise a contact with no bounce whose normal points toward the correct
/// separation — from the first particle toward the second when too long,
/// flipped when too short — and whose penetration is the positive difference.
pub open spec fn rod_contact(r: Rod, ps: Seq<Particle>) -> Option<Contact> {
    let i = r.particles.0 as int;
    let j = r.particles.1 as int;
    let dist = distance(ps, i, j);
    if dist == r.length {
        None
    } else if dist > r.length {
        Some(
            Contact {
                a: r.particles.0,
                b: Some(r.particles.1),
                restitution: 0,
                contact_normal: cast3(vnorm3(separation(ps, i, j))),
                penetration: (dist - r.length) as i64,
            },
        )
    } else {
        Some(
            Contact {
                a: r.particles.0,
                b: Some(r.particles.1),
                restitution: 0,
                contact_normal: cast3(vneg(vnorm3(separation(ps, i, j)))),
                penetration: (r.length - dist) as i64,
            },
        )
    }
}

/// A cable between two particles: an upper bound on their distance. When the
/// cable is taut beyond its maximum length it yields a contact that pulls the
/// particles back together, with the cable's own restitution.
#[derive(Clone, Copy, Debug)]
pub struct Cable {
    /// The indices of the linked particles in the arena.
    pub particles: (usize, usize),
    /// The greatest distance the cable allows.
    pub max_length: i64,
    /// Restitution of the contact the cable generates, in `[0, 1]`.
    pub restitution: i64,
}

impl Cable {
    pub fn new(particles: (usize, usize), max_length: i64, restitution: i64) -> (r: Cable)
        ensures
            r.particles == particles,
            r.max_length == max_length,
            r.restitution == restitution,
    {
        Cable { particles, max_length, restitution }
    }

    /// The current distance between the linked particles.
    pub fn current_length(&self, particles: &Vec<Particle>) -> (r: i64)
        requires
            link_wf(particles@, self.particles.0 as int, self.particles.1 as int),
        ensures
            r == distance(particles@, self.particles.0 as int, self.particles.1 as int),
            r >= 0,
    {
        proof {
            let d = separation(particles@, self.particles.0 as int, self.particles.1 as int);
            lemma_fmul_self_nonneg(d.x);
            lemma_fmul_self_nonneg(d.y);
            lemma_fmul_self_nonneg(d.z);
        }
        let pa = particles[self.particles.0].get_position();
        let pb = particles[self.particles.1].get_position();
        let d = pb.sub(pa);
        d.magnitude()
    }

    /// Yields the contact that restores the constraint, if the cable is
    /// currently longer than its maximum length: the normal points from the
    /// first particle toward the second and the penetration is the excess
    /// length, so that resolution draws the particles together.
    pub fn add_contact(&self, particles: &Vec<Particle>) -> (r: Option<Contact>)
        requires
            link_wf(particles@, self.particles.0 as int, self.particles.1 as int),
            0 <= self.max_length <= LIM,
            0 <= self.restitution <= SCALE,
        ensures
            r == cable_contact(*self, particles@),
            match r {
                None => true,
                Some(c) => contact_wf(c, particles@.len()),
            },
    {
        let length = self.current_length(particles);
        if length <= self.max_length {
            return None;
        }
        proof {
            let i = self.particles.0 as int;
            let j = self.particles.1 as int;
            let d = separation(particles@, i, j);
            lemma_fmul_self_nonneg(d.x);
            lemma_fmul_self_nonneg(d.y);
            lemma_fmul_self_nonneg(d.z);
            lemma_distance_range(particles@, i, j);
        }
        let pa = particles[self.particles.0].get_position();
        let pb = particles[self.particles.1].get_position();
        let mut normal = pb.sub(pa);
        normal.normalize();
        Some(
            Contact {
                a: self.particles.0,
                b: Some(self.particles.1),
                restitution: self.restitution,
                contact_normal: normal,
                penetration: length - self.max_length,
            },
        )
    }
}

/// A rod between two particles: holds their distance at exactly its length.
/// Whenever the distance differs from the rod's length it yields a contact
/// that pushes the particles toward the correct separation, with no bounce.
#[derive(Clone, Copy, Debug)]
pub struct Rod {
    /// The indices of the linked particles in the arena.
    pub particles: (usize, usize),
    /// The exact distance the rod enforces.
    pub length: i64,
}

impl Rod {
    pub fn new(particles: (usize, usize), length: i64) -> (r: Rod)
        ensures
            r.particles == particles,
            r.length == length,
    {
        Rod { particles, length }
    }

    /// The current distance between the linked particles.
    pub fn current_length(&self, particles: &Vec<Particle>) -> (r: i64)
        requires
            link_wf(particles@, self.particles.0 as int, self.particles.1 as int),
        ensures
            r == distance(particles@, self.particles.0 as int, self.particles.1 as int),
            r >= 0,
    {
        proof {
            let d = separation(particles@, self.particles.0 as int, self.particles.1 as int);
            lemma_fmul_self_nonneg(d.x);
            lemma_fmul_self_nonneg(d.y);
            lemma_fmul_self_nonneg(d.z);
        }
        let pa = particles[self.particles.0].get_position();
        let pb = particles[self.particles.1].get_position();
        let d = pb.sub(pa);
        d.magnitude()
    }

    /// Yields the contact that restores the constraint, if the current
    /// distance differs from the rod's length. Fixed-point distances are
    /// exact integers, so the equality test is exact and needs no tolerance.
    /// Too long: the normal points from the first particle toward the second
    /// and resolution draws them together. Too short: the normal is flipped
    /// and resolution pushes them apart. Penetration is always the positive
    /// difference, and a rod does not bounce (restitution zero).
    pub fn add_contact(&self, particles: &Vec<Particle>) -> (r: Option<Contact>)
        requires
            link_wf(particles@, self.particles.0 as int, self.particles.1 as int),
            0 <= self.length <= LIM,
        ensures
            r == rod_contact(*self, particles@),
            match r {
                None => true,
                Some(c) => c.penetration > 0 && contact_wf(c, particles@.len()),
            },
    {
        let current_length = self.current_length(particles);
        if current_length == self.length {
            return None;
        }
        proof {
            let i = self.particles.0 as int;
            let j = self.particles.1 as int;
            let d = separation(particles@, i, j);
            lemma_fmul_self_nonneg(d.x);
            lemma_fmul_self_nonneg(d.y);
            lemma_fmul_self_nonneg(d.z);
            lemma_distance_range(particles@, i, j);
        }
        let pa = particles[self.particles.0].get_position();
        let pb = particles[self.particles.1].get_position();
        let mut normal = pb.sub(pa);
        normal.normalize();
        let penetration: i64;
        if current_length > self.length {
            penetration = current_length - self.length;
        } else {
            normal.invert();
            penetration = self.length - current_length;
        }
        Some(
            Contact {
                a: self.particles.0,
                b: Some(self.particles.1),
                restitution: 0,
                contact_normal: normal,
                penetration,
            },
        )
    }
}

} // verus!
