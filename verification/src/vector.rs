//! Three-component vectors over fixed-point scalars.

use vstd::prelude::*;

use crate::fixed::{
    bounded, fdiv, fits64, fmul, fsqrt, fx_div, fx_mul, fx_sqrt, iabs, isqrt, lemma_fmul_bound,
    lemma_isqrt_props, SCALE,
};

verus! {

/// A vector of three fixed-point scalars.
#[derive(Clone, Copy, Debug, PartialEq, Eq, Structural)]
pub struct Vec3 {
    pub x: i64,
    pub y: i64,
    pub z: i64,
}

/// The mathematical value of a vector: three unbounded integers, used by
/// contracts to state results that exec code must then prove fit in `i64`.
pub struct V3 {
    pub x: int,
    pub y: int,
    pub z: int,
}

/// The mathematical value of a `Vec3`.
pub open spec fn vv(v: Vec3) -> V3 {
    V3 { x: v.x as int, y: v.y as int, z: v.z as int }
}

/// Componentwise sum of mathematical vectors.
pub open spec fn vadd(a: V3, b: V3) -> V3 {
    V3 { x: a.x + b.x, y: a.y + b.y, z: a.z + b.z }
}

/// Componentwise difference of mathematical vectors.
pub open spec fn vsub(a: V3, b: V3) -> V3 {
    V3 { x: a.x - b.x, y: a.y - b.y, z: a.z - b.z }
}

/// A mathematical vector scaled by a fixed-point factor.
pub open spec fn vscale(a: V3, k: int) -> V3 {
    V3 { x: fmul(a.x, k), y: fmul(a.y, k), z: fmul(a.z, k) }
}

/// The zero mathematical vector.
pub open spec fn vzero() -> V3 {
    V3 { x: 0, y: 0, z: 0 }
}

/// The fixed-point dot product of mathematical vectors.
pub open spec fn dot3(a: V3, b: V3) -> int {
    fmul(a.x, b.x) + fmul(a.y, b.y) + fmul(a.z, b.z)
}

/// The fixed-point squared magnitude of a mathematical vector.
pub open spec fn sqm3(a: V3) -> int {
    dot3(a, a)
}

/// All components of a mathematical vector are within the simulation range.
pub open spec fn bounded3(a: V3) -> bool {
    bounded(a.x) && bounded(a.y) && bounded(a.z)
}

/// All components of a mathematical vector fit in an `i64`.
pub open spec fn fits3(a: V3) -> bool {
    fits64(a.x) && fits64(a.y) && fits64(a.z)
}

/// A vector whose components are all within the simulation range.
pub open spec fn bounded_vec(v: Vec3) -> bool {
    bounded(v.x as int) && bounded(v.y as int) && bounded(v.z as int)
}

/// The fixed-point magnitude of a mathematical vector.
pub open spec fn mag3(a: V3) -> int {
    fsqrt(sqm3(a))
}

/// A mathematical vector scaled to unit length: each component divided by
/// the magnitude; unchanged when the magnitude is zero.
pub open spec fn vnorm3(a: V3) -> V3 {
    if mag3(a) == 0 {
        a
    } else {
        V3 { x: fdiv(a.x, mag3(a)), y: fdiv(a.y, mag3(a)), z: fdiv(a.z, mag3(a)) }
    }
}

/// The fixed-point cross product of mathematical vectors, for a right-handed
/// coordinate system.
pub open spec fn vcross(a: V3, b: V3) -> V3 {
    V3 {
        x: fmul(a.y, b.z) - fmul(a.z, b.y),
        y: fmul(a.z, b.x) - fmul(a.x, b.z),
        z: fmul(a.x, b.y) - fmul(a.y, b.x),
    }
}

/// The `Vec3` holding a mathematical vector whose components fit in `i64`.
pub open spec fn cast3(a: V3) -> Vec3 {
    Vec3 { x: a.x as i64, y: a.y as i64, z: a.z as i64 }
}

/// The componentwise negation of a mathematical vector.
pub open spec fn vneg(a: V3) -> V3 {
    V3 { x: -a.x, y: -a.y, z: -a.z }
}

/// The fixed-point dot product.
pub open spec fn dot(u: Vec3, v: Vec3) -> int {
    dot3(vv(u), vv(v))
}

/// The fixed-point squared magnitude.
pub open spec fn sqm(v: Vec3) -> int {
    sqm3(vv(v))
}

/// The fixed-point magnitude.
pub open spec fn mag(v: Vec3) -> int {
    mag3(vv(v))
}

/// A square is non-negative, also after descaling.
pub proof fn lemma_fmul_self_nonneg(a: int)
    ensures
        0 <= fmul(a, a),
{
    assert(0 <= a * a) by (nonlinear_arith);
}

/// The squared magnitude of a bounded vector is non-negative and small
/// enough for the square-root helper.
pub proof fn lemma_sqm_range(v: Vec3)
    requires
        bounded_vec(v),
    ensures
        0 <= sqm(v) <= 0x3000_0000_0000_0000,
{
    lemma_fmul_self_nonneg(v.x as int);
    lemma_fmul_self_nonneg(v.y as int);
    lemma_fmul_self_nonneg(v.z as int);
    lemma_fmul_bound(v.x as int, v.x as int);
    lemma_fmul_bound(v.y as int, v.y as int);
    lemma_fmul_bound(v.z as int, v.z as int);
}

/// The integer square root is monotone.
pub proof fn lemma_isqrt_monotone(a: int, b: int)
    requires
        0 <= a <= b,
    ensures
        isqrt(a) <= isqrt(b),
{
    lemma_isqrt_props(a);
    lemma_isqrt_props(b);
    let ra = isqrt(a);
    let rb = isqrt(b);
    if rb < ra {
        assert(false) by (nonlinear_arith)
            requires
                0 <= rb < ra,
                ra * ra <= a,
                a <= b,
                b < (rb + 1) * (rb + 1),
        ;
    }
}

/// Dividing a component by the magnitude of a vector containing it yields a
/// scalar of at most two units or so: the magnitude undershoots the
/// component's absolute value by at most half a tick's worth of rounding.
pub proof fn lemma_fdiv_by_root_bound(t: int, s: int)
    requires
        bounded(t),
        fmul(t, t) <= s,
        isqrt(s * SCALE) >= 1,
    ensures
        iabs(fdiv(t, isqrt(s * SCALE))) <= 0x8000_0000,
{
    let tt = iabs(t);
    let m = isqrt(s * SCALE);
    assert(t * t == tt * tt) by (nonlinear_arith)
        requires
            tt == t || tt == -t,
    ;
    vstd::arithmetic::div_mod::lemma_fundamental_div_mod(tt * tt, SCALE as int);
    vstd::arithmetic::div_mod::lemma_mod_division_less_than_divisor(tt * tt, SCALE as int);
    assert(fmul(t, t) * SCALE >= tt * tt - SCALE + 1);
    assert(s * SCALE >= fmul(t, t) * SCALE);
    lemma_isqrt_props(s * SCALE);
    assert((m + 1) * (m + 1) > tt * tt - SCALE + 1);
    if tt >= 2048 {
        assert(m >= tt - 1024) by (nonlinear_arith)
            requires
                tt >= 2048,
                (m + 1) * (m + 1) > tt * tt - SCALE + 1,
                SCALE == 1048576,
                m >= 1,
        ;
        assert(tt * SCALE <= (2 * SCALE) * (tt - 1024)) by (nonlinear_arith)
            requires
                tt >= 2048,
                SCALE == 1048576,
        ;
        vstd::arithmetic::div_mod::lemma_div_is_ordered_by_denominator(
            tt * SCALE,
            tt - 1024,
            m,
        );
        vstd::arithmetic::div_mod::lemma_multiply_divide_le(tt * SCALE, tt - 1024, 2 * SCALE);
        assert((tt * SCALE) / m <= 2 * SCALE);
    } else {
        vstd::arithmetic::div_mod::lemma_div_nonincreasing(tt * SCALE, m);
        assert(tt * SCALE < 0x8000_0000);
    }
}

/// A vector scaled to unit length by `normalize` has all its components
/// within `0x8000_0000` ticks.
pub proof fn lemma_normalized_bounded(v: Vec3)
    requires
        bounded_vec(v),
        mag(v) >= 1,
    ensures
        iabs(fdiv(v.x as int, mag(v))) <= 0x8000_0000,
        iabs(fdiv(v.y as int, mag(v))) <= 0x8000_0000,
        iabs(fdiv(v.z as int, mag(v))) <= 0x8000_0000,
{
    lemma_fmul_self_nonneg(v.x as int);
    lemma_fmul_self_nonneg(v.y as int);
    lemma_fmul_self_nonneg(v.z as int);
    lemma_fdiv_by_root_bound(v.x as int, sqm(v));
    lemma_fdiv_by_root_bound(v.y as int, sqm(v));
    lemma_fdiv_by_root_bound(v.z as int, sqm(v));
}

impl Vec3 {
    /// The zero vector.
    pub fn new() -> (v: Vec3)
        ensures
            v == (Vec3 { x: 0, y: 0, z: 0 }),
    {
        Vec3 { x: 0, y: 0, z: 0 }
    }

    pub fn from_values(x: i64, y: i64, z: i64) -> (v: Vec3)
        ensures
            v == (Vec3 { x, y, z }),
    {
        Vec3 { x, y, z }
    }

    /// The vector read from the first three entries of a list.
    pub fn from_vec(vals: Vec<i64>) -> (v: Vec3)
        requires
            vals@.len() >= 3,
        ensures
            v == (Vec3 { x: vals@[0], y: vals@[1], z: vals@[2] }),
    {
        Vec3 { x: vals[0], y: vals[1], z: vals[2] }
    }

    /// A copy of the vector.
    pub fn build(&self) -> (v: Vec3)
        ensures
            v == *self,
    {
        Vec3 { x: self.x, y: self.y, z: self.z }
    }

    pub fn set_values(&mut self, x: i64, y: i64, z: i64)
        ensures
            *final(self) == (Vec3 { x, y, z }),
    {
        self.x = x;
        self.y = y;
        self.z = z;
    }

    pub fn set_to_zero(&mut self)
        ensures
            *final(self) == (Vec3 { x: 0, y: 0, z: 0 }),
    {
        self.x = 0;
        self.y = 0;
        self.z = 0;
    }

    /// Flips the vector's direction.
    pub fn invert(&mut self)
        requires
            bounded_vec(*self),
        ensures
            final(self).x == -old(self).x,
            final(self).y == -old(self).y,
            final(self).z == -old(self).z,
    {
        self.x = -self.x;
        self.y = -self.y;
        self.z = -self.z;
    }

    /// The componentwise sum.
    pub fn add(&self, v: Vec3) -> (r: Vec3)
        requires
            fits64(self.x + v.x),
            fits64(self.y + v.y),
            fits64(self.z + v.z),
        ensures
            r.x == self.x + v.x,
            r.y == self.y + v.y,
            r.z == self.z + v.z,
    {
        Vec3 { x: self.x + v.x, y: self.y + v.y, z: self.z + v.z }
    }

    /// The componentwise difference.
    pub fn sub(&self, v: Vec3) -> (r: Vec3)
        requires
            fits64(self.x - v.x),
            fits64(self.y - v.y),
            fits64(self.z - v.z),
        ensures
            r.x == self.x - v.x,
            r.y == self.y - v.y,
            r.z == self.z - v.z,
    {
        Vec3 { x: self.x - v.x, y: self.y - v.y, z: self.z - v.z }
    }

    /// The vector scaled by a fixed-point factor.
    pub fn mul(&self, k: i64) -> (r: Vec3)
        requires
            bounded_vec(*self),
            bounded(k as int),
        ensures
            r.x == fmul(self.x as int, k as int),
            r.y == fmul(self.y as int, k as int),
            r.z == fmul(self.z as int, k as int),
    {
        Vec3 { x: fx_mul(self.x, k), y: fx_mul(self.y, k), z: fx_mul(self.z, k) }
    }

    /// Accumulates `v` scaled by `scale` into the vector.
    pub fn add_scaled(&mut self, v: &Vec3, scale: i64)
        requires
            bounded_vec(*v),
            bounded(scale as int),
            i64::MIN <= old(self).x + fmul(v.x as int, scale as int) <= i64::MAX,
            i64::MIN <= old(self).y + fmul(v.y as int, scale as int) <= i64::MAX,
            i64::MIN <= old(self).z + fmul(v.z as int, scale as int) <= i64::MAX,
        ensures
            final(self).x == old(self).x + fmul(v.x as int, scale as int),
            final(self).y == old(self).y + fmul(v.y as int, scale as int),
            final(self).z == old(self).z + fmul(v.z as int, scale as int),
    {
        proof {
            lemma_fmul_bound(v.x as int, scale as int);
            lemma_fmul_bound(v.y as int, scale as int);
            lemma_fmul_bound(v.z as int, scale as int);
        }
        self.x = self.x + fx_mul(v.x, scale);
        self.y = self.y + fx_mul(v.y, scale);
        self.z = self.z + fx_mul(v.z, scale);
    }

    /// The componentwise product.
    pub fn component_product(&self, v: Vec3) -> (r: Vec3)
        requires
            bounded_vec(*self),
            bounded_vec(v),
        ensures
            r.x == fmul(self.x as int, v.x as int),
            r.y == fmul(self.y as int, v.y as int),
            r.z == fmul(self.z as int, v.z as int),
    {
        Vec3 { x: fx_mul(self.x, v.x), y: fx_mul(self.y, v.y), z: fx_mul(self.z, v.z) }
    }

    /// Replaces the vector by its componentwise product with `v`.
    pub fn component_product_update(&mut self, v: Vec3)
        requires
            bounded_vec(*old(self)),
            bounded_vec(v),
        ensures
            final(self).x == fmul(old(self).x as int, v.x as int),
            final(self).y == fmul(old(self).y as int, v.y as int),
            final(self).z == fmul(old(self).z as int, v.z as int),
    {
        self.x = fx_mul(self.x, v.x);
        self.y = fx_mul(self.y, v.y);
        self.z = fx_mul(self.z, v.z);
    }

    /// The dot product.
    pub fn scalar_product(&self, v: Vec3) -> (r: i64)
        requires
            bounded_vec(*self),
            bounded_vec(v),
        ensures
            r == dot(*self, v),
    {
        proof {
            lemma_fmul_bound(self.x as int, v.x as int);
            lemma_fmul_bound(self.y as int, v.y as int);
            lemma_fmul_bound(self.z as int, v.z as int);
        }
        fx_mul(self.x, v.x) + fx_mul(self.y, v.y) + fx_mul(self.z, v.z)
    }

    /// The cross product, for a right-handed coordinate system.
    pub fn vector_product(&self, v: Vec3) -> (r: Vec3)
        requires
            bounded_vec(*self),
            bounded_vec(v),
        ensures
            vv(r) == vcross(vv(*self), vv(v)),
    {
        proof {
            lemma_fmul_bound(self.x as int, v.y as int);
            lemma_fmul_bound(self.x as int, v.z as int);
            lemma_fmul_bound(self.y as int, v.x as int);
            lemma_fmul_bound(self.y as int, v.z as int);
            lemma_fmul_bound(self.z as int, v.x as int);
            lemma_fmul_bound(self.z as int, v.y as int);
        }
        Vec3 {
            x: fx_mul(self.y, v.z) - fx_mul(self.z, v.y),
            y: fx_mul(self.z, v.x) - fx_mul(self.x, v.z),
            z: fx_mul(self.x, v.y) - fx_mul(self.y, v.x),
        }
    }

    /// The squared magnitude.
    pub fn square_magnitude(&self) -> (r: i64)
        requires
            bounded_vec(*self),
        ensures
            r == sqm(*self),
    {
        self.scalar_product(*self)
    }

    /// The magnitude.
    pub fn magnitude(&self) -> (r: i64)
        requires
            bounded_vec(*self),
        ensures
            r == mag(*self),
            r >= 0,
    {
        proof {
            lemma_sqm_range(*self);
        }
        let s = self.square_magnitude();
        fx_sqrt(s)
    }

    /// Rebuilds `a`, `b`, `c` into a right-handed orthogonal basis around the
    /// direction of `a`: `a` is normalized, `c` becomes the unit cross
    /// product of `a` and `b`, and `b` is rebuilt as `c` cross `a`. When `a`
    /// and `b` are parallel the cross product has magnitude zero; `c` keeps
    /// that degenerate value and `b` stays as it was.
    pub fn make_orthogonal_basis(a: &mut Vec3, b: &mut Vec3, c: &mut Vec3)
        requires
            bounded_vec(*old(a)),
            bounded_vec(*old(b)),
            bounded3(vcross(vnorm3(vv(*old(a))), vv(*old(b)))),
            bounded(sqm3(vcross(vnorm3(vv(*old(a))), vv(*old(b))))),
        ensures
            ({
                let an = vnorm3(vv(*old(a)));
                let c0 = vcross(an, vv(*old(b)));
                &&& vv(*final(a)) == an
                &&& (mag3(c0) == 0 ==> vv(*final(c)) == c0 && *final(b) == *old(b))
                &&& (mag3(c0) != 0 ==> vv(*final(c)) == vnorm3(c0) && vv(*final(b)) == vcross(
                    vnorm3(c0),
                    an,
                ))
            }),
    {
        a.normalize();
        *c = a.vector_product(*b);
        proof {
            lemma_fmul_self_nonneg(c.x as int);
            lemma_fmul_self_nonneg(c.y as int);
            lemma_fmul_self_nonneg(c.z as int);
            lemma_isqrt_props(sqm(*c) * SCALE);
            let r = isqrt(sqm(*c) * SCALE);
            if sqm(*c) == 0 {
                assert(r == 0) by (nonlinear_arith)
                    requires
                        r >= 0,
                        r * r <= 0,
                ;
            }
        }
        let m = c.square_magnitude();
        if m == 0 {
            return ;
        }
        proof {
            lemma_isqrt_props(sqm(*c) * SCALE);
            let r = isqrt(sqm(*c) * SCALE);
            if r == 0 {
                assert((r + 1) * (r + 1) == 1) by (nonlinear_arith)
                    requires
                        r == 0,
                ;
                assert(false);
            }
        }
        c.normalize();
        *b = c.vector_product(*a);
    }

    /// Scales the vector to unit length by dividing each component by the
    /// magnitude; a vector of magnitude zero is left unchanged.
    pub fn normalize(&mut self)
        requires
            bounded_vec(*old(self)),
        ensures
            mag(*old(self)) == 0 ==> *final(self) == *old(self),
            mag(*old(self)) > 0 ==> final(self).x == fdiv(old(self).x as int, mag(*old(self)))
                && final(self).y == fdiv(old(self).y as int, mag(*old(self)))
                && final(self).z == fdiv(old(self).z as int, mag(*old(self))),
            vv(*final(self)) == vnorm3(vv(*old(self))),
            bounded_vec(*final(self)),
    {
        let m = self.magnitude();
        if m > 0 {
            proof {
                lemma_normalized_bounded(*self);
            }
            self.x = fx_div(self.x, m);
            self.y = fx_div(self.y, m);
            self.z = fx_div(self.z, m);
        }
    }
}

} // verus!
