//! Orientation quaternions over fixed-point scalars.

use vstd::prelude::*;

use crate::fixed::{
    bounded, fdiv, fmul, fsqrt, fx_div, fx_mul, fx_sqrt, lemma_fmul_bound, SCALE,
};
use crate::vector::{bounded3, lemma_fmul_self_nonneg, vscale, vv, Vec3};

verus! {

/// An orientation: four fixed-point components. Operations that consume it
/// as an orientation expect unit length; `normalize` restores that.
#[derive(Clone, Copy, Debug, PartialEq, Eq, Structural)]
pub struct Quaternion {
    pub r: i64,
    pub i: i64,
    pub j: i64,
    pub k: i64,
}

/// All components within the simulation range.
pub open spec fn bounded_quat(q: Quaternion) -> bool {
    bounded(q.r as int) && bounded(q.i as int) && bounded(q.j as int) && bounded(q.k as int)
}

/// The fixed-point squared length of a quaternion.
pub open spec fn qsqm(q: Quaternion) -> int {
    fmul(q.r as int, q.r as int) + fmul(q.i as int, q.i as int) + fmul(q.j as int, q.j as int)
        + fmul(q.k as int, q.k as int)
}

/// The fixed-point length of a quaternion.
pub open spec fn qmag(q: Quaternion) -> int {
    fsqrt(qsqm(q))
}

/// The scalar part of the Hamilton product `a * b`.
pub open spec fn qmul_r(a: Quaternion, b: Quaternion) -> int {
    fmul(a.r as int, b.r as int) - fmul(a.i as int, b.i as int) - fmul(a.j as int, b.j as int)
        - fmul(a.k as int, b.k as int)
}

/// The `i` part of the Hamilton product `a * b`.
pub open spec fn qmul_i(a: Quaternion, b: Quaternion) -> int {
    fmul(a.r as int, b.i as int) + fmul(a.i as int, b.r as int) + fmul(a.j as int, b.k as int)
        - fmul(a.k as int, b.j as int)
}

/// The `j` part of the Hamilton product `a * b`.
pub open spec fn qmul_j(a: Quaternion, b: Quaternion) -> int {
    fmul(a.r as int, b.j as int) + fmul(a.j as int, b.r as int) + fmul(a.k as int, b.i as int)
        - fmul(a.i as int, b.k as int)
}

/// The `k` part of the Hamilton product `a * b`.
pub open spec fn qmul_k(a: Quaternion, b: Quaternion) -> int {
    fmul(a.r as int, b.k as int) + fmul(a.k as int, b.r as int) + fmul(a.i as int, b.j as int)
        - fmul(a.j as int, b.i as int)
}

/// The quaternion scaled to unit length, or the identity rotation when its
/// length is exactly zero.
pub open spec fn qnormalized(q: Quaternion) -> Quaternion {
    if qmag(q) == 0 {
        Quaternion { r: SCALE, i: 0, j: 0, k: 0 }
    } else {
        Quaternion {
            r: fdiv(q.r as int, qmag(q)) as i64,
            i: fdiv(q.i as int, qmag(q)) as i64,
            j: fdiv(q.j as int, qmag(q)) as i64,
            k: fdiv(q.k as int, qmag(q)) as i64,
        }
    }
}

/// The orientation after integrating an angular velocity `w` for `dt`:
/// `q + ((0, w * dt) * q) / 2`.
pub open spec fn q_after_scaled_vector(q: Quaternion, w: Vec3, dt: int) -> Quaternion {
    let vq = vec_quat(w, dt);
    Quaternion {
        r: (q.r + fmul(qmul_r(vq, q), (SCALE / 2) as int)) as i64,
        i: (q.i + fmul(qmul_i(vq, q), (SCALE / 2) as int)) as i64,
        j: (q.j + fmul(qmul_j(vq, q), (SCALE / 2) as int)) as i64,
        k: (q.k + fmul(qmul_k(vq, q), (SCALE / 2) as int)) as i64,
    }
}

/// The pure vector quaternion `(0, v * scale)` used to integrate an angular
/// velocity.
pub open spec fn vec_quat(v: Vec3, scale: int) -> Quaternion {
    Quaternion {
        r: 0,
        i: fmul(v.x as int, scale) as i64,
        j: fmul(v.y as int, scale) as i64,
        k: fmul(v.z as int, scale) as i64,
    }
}

impl Quaternion {
    /// The identity rotation.
    pub fn identity() -> (q: Quaternion)
        ensures
            q == (Quaternion { r: SCALE, i: 0, j: 0, k: 0 }),
    {
        Quaternion { r: SCALE, i: 0, j: 0, k: 0 }
    }

    pub fn from_values(r: i64, i: i64, j: i64, k: i64) -> (q: Quaternion)
        ensures
            q == (Quaternion { r, i, j, k }),
    {
        Quaternion { r, i, j, k }
    }

    /// The quaternion scaled to unit length: each component divided by the
    /// length. A quaternion of length exactly zero cannot be an orientation;
    /// the identity rotation takes its place.
    pub fn normalize(&self) -> (q: Quaternion)
        requires
            bounded_quat(*self),
        ensures
            q == qnormalized(*self),
            bounded_quat(q),
            qmag(*self) == 0 ==> q == (Quaternion { r: SCALE, i: 0, j: 0, k: 0 }),
            qmag(*self) != 0 ==> q.r == fdiv(self.r as int, qmag(*self)) && q.i == fdiv(
                self.i as int,
                qmag(*self),
            ) && q.j == fdiv(self.j as int, qmag(*self)) && q.k == fdiv(
                self.k as int,
                qmag(*self),
            ),
    {
        proof {
            lemma_fmul_self_nonneg(self.r as int);
            lemma_fmul_self_nonneg(self.i as int);
            lemma_fmul_self_nonneg(self.j as int);
            lemma_fmul_self_nonneg(self.k as int);
            lemma_fmul_bound(self.r as int, self.r as int);
            lemma_fmul_bound(self.i as int, self.i as int);
            lemma_fmul_bound(self.j as int, self.j as int);
            lemma_fmul_bound(self.k as int, self.k as int);
        }
        let s = fx_mul(self.r, self.r) + fx_mul(self.i, self.i) + fx_mul(self.j, self.j) + fx_mul(
            self.k,
            self.k,
        );
        let n = fx_sqrt(s);
        if n == 0 {
            return Quaternion { r: SCALE, i: 0, j: 0, k: 0 };
        }
        proof {
            crate::vector::lemma_fdiv_by_root_bound(self.r as int, qsqm(*self));
            crate::vector::lemma_fdiv_by_root_bound(self.i as int, qsqm(*self));
            crate::vector::lemma_fdiv_by_root_bound(self.j as int, qsqm(*self));
            crate::vector::lemma_fdiv_by_root_bound(self.k as int, qsqm(*self));
        }
        Quaternion {
            r: fx_div(self.r, n),
            i: fx_div(self.i, n),
            j: fx_div(self.j, n),
            k: fx_div(self.k, n),
        }
    }

    /// The Hamilton product `self * q`: the rotation equivalent to performing
    /// `q` first and then `self`.
    pub fn mul(&self, q: &Quaternion) -> (w: Quaternion)
        requires
            bounded_quat(*self),
            bounded_quat(*q),
        ensures
            w.r == qmul_r(*self, *q),
            w.i == qmul_i(*self, *q),
            w.j == qmul_j(*self, *q),
            w.k == qmul_k(*self, *q),
    {
        proof {
            lemma_fmul_bound(self.r as int, q.r as int);
            lemma_fmul_bound(self.r as int, q.i as int);
            lemma_fmul_bound(self.r as int, q.j as int);
            lemma_fmul_bound(self.r as int, q.k as int);
            lemma_fmul_bound(self.i as int, q.r as int);
            lemma_fmul_bound(self.i as int, q.i as int);
            lemma_fmul_bound(self.i as int, q.j as int);
            lemma_fmul_bound(self.i as int, q.k as int);
            lemma_fmul_bound(self.j as int, q.r as int);
            lemma_fmul_bound(self.j as int, q.i as int);
            lemma_fmul_bound(self.j as int, q.j as int);
            lemma_fmul_bound(self.j as int, q.k as int);
            lemma_fmul_bound(self.k as int, q.r as int);
            lemma_fmul_bound(self.k as int, q.i as int);
            lemma_fmul_bound(self.k as int, q.j as int);
            lemma_fmul_bound(self.k as int, q.k as int);
        }
        Quaternion {
            r: fx_mul(self.r, q.r) - fx_mul(self.i, q.i) - fx_mul(self.j, q.j) - fx_mul(
                self.k,
                q.k,
            ),
            i: fx_mul(self.r, q.i) + fx_mul(self.i, q.r) + fx_mul(self.j, q.k) - fx_mul(
                self.k,
                q.j,
            ),
            j: fx_mul(self.r, q.j) + fx_mul(self.j, q.r) + fx_mul(self.k, q.i) - fx_mul(
                self.i,
                q.k,
            ),
            k: fx_mul(self.r, q.k) + fx_mul(self.k, q.r) + fx_mul(self.i, q.j) - fx_mul(
                self.j,
                q.i,
            ),
        }
    }

    /// Composes the rotation with the pure vector quaternion `(0, v)`: the
    /// orientation becomes `self * (0, v)`.
    pub fn rotate_by_vector(&mut self, v: Vec3)
        requires
            bounded_quat(*old(self)),
            bounded3(vv(v)),
        ensures
            final(self).r == qmul_r(*old(self), Quaternion { r: 0, i: v.x, j: v.y, k: v.z }),
            final(self).i == qmul_i(*old(self), Quaternion { r: 0, i: v.x, j: v.y, k: v.z }),
            final(self).j == qmul_j(*old(self), Quaternion { r: 0, i: v.x, j: v.y, k: v.z }),
            final(self).k == qmul_k(*old(self), Quaternion { r: 0, i: v.x, j: v.y, k: v.z }),
    {
        let q = Quaternion { r: 0, i: v.x, j: v.y, k: v.z };
        *self = self.mul(&q);
    }

    /// Integrates an angular velocity over a step: the orientation becomes
    /// `self + ((0, v * scale) * self) / 2`, the first-order update of an
    /// orientation under the angular velocity `v` for `scale` time.
    pub fn add_scaled_vector(&mut self, v: &Vec3, scale: i64)
        requires
            bounded_quat(*old(self)),
            bounded3(vv(*v)),
            bounded(scale as int),
            bounded3(vscale(vv(*v), scale as int)),
            bounded(qmul_r(vec_quat(*v, scale as int), *old(self))),
            bounded(qmul_i(vec_quat(*v, scale as int), *old(self))),
            bounded(qmul_j(vec_quat(*v, scale as int), *old(self))),
            bounded(qmul_k(vec_quat(*v, scale as int), *old(self))),
        ensures
            ({
                let w = vec_quat(*v, scale as int);
                &&& final(self).r == old(self).r + fmul(qmul_r(w, *old(self)), (SCALE / 2) as int)
                &&& final(self).i == old(self).i + fmul(qmul_i(w, *old(self)), (SCALE / 2) as int)
                &&& final(self).j == old(self).j + fmul(qmul_j(w, *old(self)), (SCALE / 2) as int)
                &&& final(self).k == old(self).k + fmul(qmul_k(w, *old(self)), (SCALE / 2) as int)
            }),
            *final(self) == q_after_scaled_vector(*old(self), *v, scale as int),
    {
        let q = Quaternion {
            r: 0,
            i: fx_mul(v.x, scale),
            j: fx_mul(v.y, scale),
            k: fx_mul(v.z, scale),
        };
        let w = q.mul(self);
        proof {
            lemma_fmul_bound(qmul_r(q, *self), (SCALE / 2) as int);
            lemma_fmul_bound(qmul_i(q, *self), (SCALE / 2) as int);
            lemma_fmul_bound(qmul_j(q, *self), (SCALE / 2) as int);
            lemma_fmul_bound(qmul_k(q, *self), (SCALE / 2) as int);
        }
        self.r = self.r + fx_mul(w.r, SCALE / 2);
        self.i = self.i + fx_mul(w.i, SCALE / 2);
        self.j = self.j + fx_mul(w.j, SCALE / 2);
        self.k = self.k + fx_mul(w.k, SCALE / 2);
    }
}

} // verus!
