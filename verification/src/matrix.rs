//! Row-major 3×3 and 3×4 matrices over fixed-point scalars.
//!
//! The 3×4 matrix holds a rotation and a translation as the first three rows
//! of a homogeneous 4×4 matrix whose last row is implicitly `[0, 0, 0, 1]`.

use vstd::prelude::*;

use crate::fixed::{
    bounded, fdiv, fmul, fx_div, fx_mul, fx_mul_wide, iabs, lemma_fmul_bound, lemma_fmul_le,
    lemma_fmul_le2, SCALE,
};
use crate::quaternion::{bounded_quat, Quaternion};
use crate::vector::{bounded3, bounded_vec, vsub, vv, Vec3, V3};

verus! {

/// Bound on a matrix entry accepted by the matrix operations: tight enough
/// that cofactors and entry products all stay within the fixed-point range.
pub const MAT_LIM: i64 = 0x2000_0000;

/// A 3×3 matrix: a transformation of 3D space without a translational
/// component.
#[derive(Clone, Copy, Debug)]
pub struct Matrix3 {
    pub data: [i64; 9],
}

/// A 3×4 transform matrix: a rotation and a position.
#[derive(Clone, Copy, Debug)]
pub struct Matrix4 {
    pub data: [i64; 12],
}

impl Matrix3 {
    /// The mathematical value of entry `i`.
    pub open spec fn e(self, i: int) -> int {
        self.data[i] as int
    }

    /// Every entry within the matrix range.
    pub open spec fn wf(self) -> bool {
        &&& iabs(self.e(0)) <= MAT_LIM
        &&& iabs(self.e(1)) <= MAT_LIM
        &&& iabs(self.e(2)) <= MAT_LIM
        &&& iabs(self.e(3)) <= MAT_LIM
        &&& iabs(self.e(4)) <= MAT_LIM
        &&& iabs(self.e(5)) <= MAT_LIM
        &&& iabs(self.e(6)) <= MAT_LIM
        &&& iabs(self.e(7)) <= MAT_LIM
        &&& iabs(self.e(8)) <= MAT_LIM
    }
}

impl Matrix4 {
    /// The mathematical value of entry `i`.
    pub open spec fn e(self, i: int) -> int {
        self.data[i] as int
    }

    /// Every entry within the matrix range.
    pub open spec fn wf(self) -> bool {
        &&& iabs(self.e(0)) <= MAT_LIM
        &&& iabs(self.e(1)) <= MAT_LIM
        &&& iabs(self.e(2)) <= MAT_LIM
        &&& iabs(self.e(3)) <= MAT_LIM
        &&& iabs(self.e(4)) <= MAT_LIM
        &&& iabs(self.e(5)) <= MAT_LIM
        &&& iabs(self.e(6)) <= MAT_LIM
        &&& iabs(self.e(7)) <= MAT_LIM
        &&& iabs(self.e(8)) <= MAT_LIM
        &&& iabs(self.e(9)) <= MAT_LIM
        &&& iabs(self.e(10)) <= MAT_LIM
        &&& iabs(self.e(11)) <= MAT_LIM
    }
}

/// The determinant of a 3×3 matrix in fixed-point arithmetic.
pub open spec fn det3(m: Matrix3) -> int {
    fmul(fmul(m.e(0), m.e(4)), m.e(8)) - fmul(fmul(m.e(0), m.e(5)), m.e(7)) - fmul(
        fmul(m.e(1), m.e(3)),
        m.e(8),
    ) + fmul(fmul(m.e(2), m.e(3)), m.e(7)) + fmul(fmul(m.e(1), m.e(6)), m.e(5)) - fmul(
        fmul(m.e(2), m.e(6)),
        m.e(4),
    )
}

/// The determinant of the rotational part of a 3×4 transform matrix.
pub open spec fn det4(m: Matrix4) -> int {
    fmul(fmul(m.e(8), m.e(5)), m.e(2)) + fmul(fmul(m.e(4), m.e(9)), m.e(2)) + fmul(
        fmul(m.e(8), m.e(1)),
        m.e(6),
    ) - fmul(fmul(m.e(0), m.e(9)), m.e(6)) - fmul(fmul(m.e(4), m.e(1)), m.e(10)) + fmul(
        fmul(m.e(0), m.e(5)),
        m.e(10),
    )
}

/// A 3×3 matrix applied to a vector.
pub open spec fn m3_xform(m: Matrix3, v: Vec3) -> V3 {
    V3 {
        x: fmul(v.x as int, m.e(0)) + fmul(v.y as int, m.e(1)) + fmul(v.z as int, m.e(2)),
        y: fmul(v.x as int, m.e(3)) + fmul(v.y as int, m.e(4)) + fmul(v.z as int, m.e(5)),
        z: fmul(v.x as int, m.e(6)) + fmul(v.y as int, m.e(7)) + fmul(v.z as int, m.e(8)),
    }
}

/// A 3×4 transform applied to a point: rotate, then translate.
pub open spec fn m4_xform(m: Matrix4, v: Vec3) -> V3 {
    V3 {
        x: fmul(v.x as int, m.e(0)) + fmul(v.y as int, m.e(1)) + fmul(v.z as int, m.e(2)) + m.e(3),
        y: fmul(v.x as int, m.e(4)) + fmul(v.y as int, m.e(5)) + fmul(v.z as int, m.e(6)) + m.e(7),
        z: fmul(v.x as int, m.e(8)) + fmul(v.y as int, m.e(9)) + fmul(v.z as int, m.e(10)) + m.e(
            11,
        ),
    }
}

/// The rotational part of a 3×4 transform applied to a direction.
pub open spec fn m4_xform_dir(m: Matrix4, v: Vec3) -> V3 {
    V3 {
        x: fmul(v.x as int, m.e(0)) + fmul(v.y as int, m.e(1)) + fmul(v.z as int, m.e(2)),
        y: fmul(v.x as int, m.e(4)) + fmul(v.y as int, m.e(5)) + fmul(v.z as int, m.e(6)),
        z: fmul(v.x as int, m.e(8)) + fmul(v.y as int, m.e(9)) + fmul(v.z as int, m.e(10)),
    }
}

/// The transpose of the rotational part of a 3×4 transform applied to a
/// direction: for a pure rotation, the inverse rotation.
pub open spec fn m4_xform_inv_dir(m: Matrix4, v: Vec3) -> V3 {
    V3 {
        x: fmul(v.x as int, m.e(0)) + fmul(v.y as int, m.e(4)) + fmul(v.z as int, m.e(8)),
        y: fmul(v.x as int, m.e(1)) + fmul(v.y as int, m.e(5)) + fmul(v.z as int, m.e(9)),
        z: fmul(v.x as int, m.e(2)) + fmul(v.y as int, m.e(6)) + fmul(v.z as int, m.e(10)),
    }
}

/// Entry `(r, c)` of the product of two 3×3 matrices.
pub open spec fn m3_prod_e(a: Matrix3, b: Matrix3, r: int, c: int) -> int {
    fmul(a.e(3 * r), b.e(c)) + fmul(a.e(3 * r + 1), b.e(c + 3)) + fmul(a.e(3 * r + 2), b.e(c + 6))
}

/// The rotational entries of a transform built from a quaternion.
pub open spec fn rot_e(q: Quaternion, i: int) -> int {
    let r = q.r as int;
    let qi = q.i as int;
    let qj = q.j as int;
    let qk = q.k as int;
    if i == 0 {
        SCALE - 2 * fmul(qj, qj) - 2 * fmul(qk, qk)
    } else if i == 1 {
        2 * fmul(qi, qj) - 2 * fmul(r, qk)
    } else if i == 2 {
        2 * fmul(qi, qk) + 2 * fmul(r, qj)
    } else if i == 3 {
        2 * fmul(qi, qj) + 2 * fmul(r, qk)
    } else if i == 4 {
        SCALE - 2 * fmul(qi, qi) - 2 * fmul(qk, qk)
    } else if i == 5 {
        2 * fmul(qj, qk) - 2 * fmul(r, qi)
    } else if i == 6 {
        2 * fmul(qi, qk) - 2 * fmul(r, qj)
    } else if i == 7 {
        2 * fmul(qj, qk) + 2 * fmul(r, qi)
    } else {
        SCALE - 2 * fmul(qi, qi) - 2 * fmul(qj, qj)
    }
}

/// Products of entries of well-formed matrices stay well within the
/// fixed-point range.
pub proof fn lemma_mat_product_small(a: int, b: int)
    requires
        iabs(a) <= MAT_LIM,
        iabs(b) <= MAT_LIM,
    ensures
        iabs(fmul(a, b)) <= 0x40_0000_0000,
        bounded(a),
        bounded(b),
        bounded(fmul(a, b)),
{
    lemma_fmul_le(a, b, MAT_LIM as int);
}

impl Matrix3 {
    /// The zero matrix.
    pub fn new() -> (m: Matrix3)
        ensures
            forall|i: int| 0 <= i < 9 ==> #[trigger] m.e(i) == 0,
            m.wf(),
    {
        Matrix3 { data: [0, 0, 0, 0, 0, 0, 0, 0, 0] }
    }

    /// The matrix applied to a vector.
    pub fn transform(&self, v: &Vec3) -> (r: Vec3)
        requires
            self.wf(),
            bounded_vec(*v),
        ensures
            vv(r) == m3_xform(*self, *v),
    {
        proof {
            lemma_fmul_bound(v.x as int, self.e(0));
            lemma_fmul_bound(v.y as int, self.e(1));
            lemma_fmul_bound(v.z as int, self.e(2));
            lemma_fmul_bound(v.x as int, self.e(3));
            lemma_fmul_bound(v.y as int, self.e(4));
            lemma_fmul_bound(v.z as int, self.e(5));
            lemma_fmul_bound(v.x as int, self.e(6));
            lemma_fmul_bound(v.y as int, self.e(7));
            lemma_fmul_bound(v.z as int, self.e(8));
        }
        Vec3 {
            x: fx_mul(v.x, self.data[0]) + fx_mul(v.y, self.data[1]) + fx_mul(v.z, self.data[2]),
            y: fx_mul(v.x, self.data[3]) + fx_mul(v.y, self.data[4]) + fx_mul(v.z, self.data[5]),
            z: fx_mul(v.x, self.data[6]) + fx_mul(v.y, self.data[7]) + fx_mul(v.z, self.data[8]),
        }
    }

    /// The determinant.
    pub fn get_determinant(&self) -> (r: i64)
        requires
            self.wf(),
        ensures
            r == det3(*self),
    {
        proof {
            lemma_mat_product_small(self.e(0), self.e(4));
            lemma_mat_product_small(self.e(0), self.e(5));
            lemma_mat_product_small(self.e(1), self.e(3));
            lemma_mat_product_small(self.e(2), self.e(3));
            lemma_mat_product_small(self.e(1), self.e(6));
            lemma_mat_product_small(self.e(2), self.e(6));
            lemma_fmul_bound(fmul(self.e(0), self.e(4)), self.e(8));
            lemma_fmul_bound(fmul(self.e(0), self.e(5)), self.e(7));
            lemma_fmul_bound(fmul(self.e(1), self.e(3)), self.e(8));
            lemma_fmul_bound(fmul(self.e(2), self.e(3)), self.e(7));
            lemma_fmul_bound(fmul(self.e(1), self.e(6)), self.e(5));
            lemma_fmul_bound(fmul(self.e(2), self.e(6)), self.e(4));
        }
        let t1 = fx_mul(self.data[0], self.data[4]);
        let t2 = fx_mul(self.data[0], self.data[5]);
        let t3 = fx_mul(self.data[1], self.data[3]);
        let t4 = fx_mul(self.data[2], self.data[3]);
        let t5 = fx_mul(self.data[1], self.data[6]);
        let t6 = fx_mul(self.data[2], self.data[6]);
        fx_mul(t1, self.data[8]) - fx_mul(t2, self.data[7]) - fx_mul(t3, self.data[8]) + fx_mul(
            t4,
            self.data[7],
        ) + fx_mul(t5, self.data[5]) - fx_mul(t6, self.data[4])
    }

    /// The inverse, or nothing when the matrix is singular (determinant
    /// exactly zero): a degenerate transform has no inverse, and the caller
    /// must handle that case itself.
    pub fn get_inverse(&self) -> (r: Option<Matrix3>)
        requires
            self.wf(),
        ensures
            r is None <==> det3(*self) == 0,
            match r {
                None => true,
                Some(m) => m3_inverse_entries(*self, m),
            },
    {
        let det = self.get_determinant();
        if det == 0 {
            return None;
        }
        proof {
            crate::fixed::lemma_fdiv_bound(SCALE as int, det as int);
            vstd::arithmetic::div_mod::lemma_div_pos_is_pos(SCALE as int * SCALE, iabs(det as int));
            vstd::arithmetic::div_mod::lemma_div_nonincreasing(
                SCALE as int * SCALE,
                iabs(det as int),
            );
            lemma_mat_product_small(self.e(4), self.e(8));
            lemma_mat_product_small(self.e(5), self.e(7));
            lemma_mat_product_small(self.e(1), self.e(8));
            lemma_mat_product_small(self.e(2), self.e(7));
            lemma_mat_product_small(self.e(1), self.e(5));
            lemma_mat_product_small(self.e(2), self.e(4));
            lemma_mat_product_small(self.e(3), self.e(8));
            lemma_mat_product_small(self.e(5), self.e(6));
            lemma_mat_product_small(self.e(0), self.e(8));
            lemma_mat_product_small(self.e(2), self.e(6));
            lemma_mat_product_small(self.e(0), self.e(5));
            lemma_mat_product_small(self.e(2), self.e(3));
            lemma_mat_product_small(self.e(3), self.e(7));
            lemma_mat_product_small(self.e(4), self.e(6));
            lemma_mat_product_small(self.e(0), self.e(7));
            lemma_mat_product_small(self.e(1), self.e(6));
            lemma_mat_product_small(self.e(0), self.e(4));
            lemma_mat_product_small(self.e(1), self.e(3));
        }
        let invd = fx_div(SCALE, det);
        let d = &self.data;
        Some(
            Matrix3 {
                data: [
                    fx_mul(fx_mul(d[4], d[8]) - fx_mul(d[5], d[7]), invd),
                    fx_mul(-(fx_mul(d[1], d[8]) - fx_mul(d[2], d[7])), invd),
                    fx_mul(fx_mul(d[1], d[5]) - fx_mul(d[2], d[4]), invd),
                    fx_mul(-(fx_mul(d[3], d[8]) - fx_mul(d[5], d[6])), invd),
                    fx_mul(fx_mul(d[0], d[8]) - fx_mul(d[2], d[6]), invd),
                    fx_mul(-(fx_mul(d[0], d[5]) - fx_mul(d[2], d[3])), invd),
                    fx_mul(fx_mul(d[3], d[7]) - fx_mul(d[4], d[6]), invd),
                    fx_mul(-(fx_mul(d[0], d[7]) - fx_mul(d[1], d[6])), invd),
                    fx_mul(fx_mul(d[0], d[4]) - fx_mul(d[1], d[3]), invd),
                ],
            },
        )
    }

    /// Replaces the matrix by its inverse; a singular matrix is left as it
    /// is.
    pub fn invert(&mut self)
        requires
            old(self).wf(),
        ensures
            det3(*old(self)) == 0 ==> *final(self) == *old(self),
            det3(*old(self)) != 0 ==> m3_inverse_entries(*old(self), *final(self)),
    {
        if let Some(m) = self.get_inverse() {
            *self = m;
        }
    }

    /// The transposed matrix.
    pub fn get_transpose(&self) -> (r: Matrix3)
        ensures
            r.e(0) == self.e(0),
            r.e(1) == self.e(3),
            r.e(2) == self.e(6),
            r.e(3) == self.e(1),
            r.e(4) == self.e(4),
            r.e(5) == self.e(7),
            r.e(6) == self.e(2),
            r.e(7) == self.e(5),
            r.e(8) == self.e(8),
    {
        let d = &self.data;
        Matrix3 { data: [d[0], d[3], d[6], d[1], d[4], d[7], d[2], d[5], d[8]] }
    }

    /// Replaces the matrix by its transpose.
    pub fn transpose(&mut self)
        ensures
            final(self).e(0) == old(self).e(0),
            final(self).e(1) == old(self).e(3),
            final(self).e(2) == old(self).e(6),
            final(self).e(3) == old(self).e(1),
            final(self).e(4) == old(self).e(4),
            final(self).e(5) == old(self).e(7),
            final(self).e(6) == old(self).e(2),
            final(self).e(7) == old(self).e(5),
            final(self).e(8) == old(self).e(8),
    {
        *self = self.get_transpose();
    }

    /// Sets the matrix to the rotation matrix of the given quaternion, which
    /// is expected to be of unit length.
    pub fn set_rotation(&mut self, q: &Quaternion)
        requires
            bounded_quat(*q),
        ensures
            final(self).e(0) == rot_e(*q, 0),
            final(self).e(1) == rot_e(*q, 1),
            final(self).e(2) == rot_e(*q, 2),
            final(self).e(3) == rot_e(*q, 3),
            final(self).e(4) == rot_e(*q, 4),
            final(self).e(5) == rot_e(*q, 5),
            final(self).e(6) == rot_e(*q, 6),
            final(self).e(7) == rot_e(*q, 7),
            final(self).e(8) == rot_e(*q, 8),
    {
        proof {
            lemma_fmul_bound(q.r as int, q.i as int);
            lemma_fmul_bound(q.r as int, q.j as int);
            lemma_fmul_bound(q.r as int, q.k as int);
            lemma_fmul_bound(q.i as int, q.i as int);
            lemma_fmul_bound(q.i as int, q.j as int);
            lemma_fmul_bound(q.i as int, q.k as int);
            lemma_fmul_bound(q.j as int, q.j as int);
            lemma_fmul_bound(q.j as int, q.k as int);
            lemma_fmul_bound(q.k as int, q.k as int);
        }
        self.data = [
            SCALE - 2 * fx_mul(q.j, q.j) - 2 * fx_mul(q.k, q.k),
            2 * fx_mul(q.i, q.j) - 2 * fx_mul(q.r, q.k),
            2 * fx_mul(q.i, q.k) + 2 * fx_mul(q.r, q.j),
            2 * fx_mul(q.i, q.j) + 2 * fx_mul(q.r, q.k),
            SCALE - 2 * fx_mul(q.i, q.i) - 2 * fx_mul(q.k, q.k),
            2 * fx_mul(q.j, q.k) - 2 * fx_mul(q.r, q.i),
            2 * fx_mul(q.i, q.k) - 2 * fx_mul(q.r, q.j),
            2 * fx_mul(q.j, q.k) + 2 * fx_mul(q.r, q.i),
            SCALE - 2 * fx_mul(q.i, q.i) - 2 * fx_mul(q.j, q.j),
        ];
    }

    /// The matrix product `self * m`: the transformation that performs `m`
    /// first and then `self`.
    pub fn mul(&self, m: &Matrix3) -> (r: Matrix3)
        requires
            self.wf(),
            m.wf(),
        ensures
            r.e(0) == m3_prod_e(*self, *m, 0, 0),
            r.e(1) == m3_prod_e(*self, *m, 0, 1),
            r.e(2) == m3_prod_e(*self, *m, 0, 2),
            r.e(3) == m3_prod_e(*self, *m, 1, 0),
            r.e(4) == m3_prod_e(*self, *m, 1, 1),
            r.e(5) == m3_prod_e(*self, *m, 1, 2),
            r.e(6) == m3_prod_e(*self, *m, 2, 0),
            r.e(7) == m3_prod_e(*self, *m, 2, 1),
            r.e(8) == m3_prod_e(*self, *m, 2, 2),
    {
        proof {
            lemma_m3_pairs_small(*self, *m);
        }
        let a = &self.data;
        let b = &m.data;
        Matrix3 {
            data: [
                fx_mul(a[0], b[0]) + fx_mul(a[1], b[3]) + fx_mul(a[2], b[6]),
                fx_mul(a[0], b[1]) + fx_mul(a[1], b[4]) + fx_mul(a[2], b[7]),
                fx_mul(a[0], b[2]) + fx_mul(a[1], b[5]) + fx_mul(a[2], b[8]),
                fx_mul(a[3], b[0]) + fx_mul(a[4], b[3]) + fx_mul(a[5], b[6]),
                fx_mul(a[3], b[1]) + fx_mul(a[4], b[4]) + fx_mul(a[5], b[7]),
                fx_mul(a[3], b[2]) + fx_mul(a[4], b[5]) + fx_mul(a[5], b[8]),
                fx_mul(a[6], b[0]) + fx_mul(a[7], b[3]) + fx_mul(a[8], b[6]),
                fx_mul(a[6], b[1]) + fx_mul(a[7], b[4]) + fx_mul(a[8], b[7]),
                fx_mul(a[6], b[2]) + fx_mul(a[7], b[5]) + fx_mul(a[8], b[8]),
            ],
        }
    }
}

/// Every entry product of the 3×3 matrix multiplication is small.
proof fn lemma_m3_pairs_small(a: Matrix3, b: Matrix3)
    requires
        a.wf(),
        b.wf(),
    ensures
        iabs(fmul(a.e(0), b.e(0))) <= 0x40_0000_0000 && bounded(a.e(0)) && bounded(b.e(0)),
        iabs(fmul(a.e(0), b.e(1))) <= 0x40_0000_0000 && bounded(b.e(1)),
        iabs(fmul(a.e(0), b.e(2))) <= 0x40_0000_0000 && bounded(b.e(2)),
        iabs(fmul(a.e(1), b.e(3))) <= 0x40_0000_0000 && bounded(a.e(1)) && bounded(b.e(3)),
        iabs(fmul(a.e(1), b.e(4))) <= 0x40_0000_0000 && bounded(b.e(4)),
        iabs(fmul(a.e(1), b.e(5))) <= 0x40_0000_0000 && bounded(b.e(5)),
        iabs(fmul(a.e(2), b.e(6))) <= 0x40_0000_0000 && bounded(a.e(2)) && bounded(b.e(6)),
        iabs(fmul(a.e(2), b.e(7))) <= 0x40_0000_0000 && bounded(b.e(7)),
        iabs(fmul(a.e(2), b.e(8))) <= 0x40_0000_0000 && bounded(b.e(8)),
        iabs(fmul(a.e(3), b.e(0))) <= 0x40_0000_0000 && bounded(a.e(3)),
        iabs(fmul(a.e(3), b.e(1))) <= 0x40_0000_0000,
        iabs(fmul(a.e(3), b.e(2))) <= 0x40_0000_0000,
        iabs(fmul(a.e(4), b.e(3))) <= 0x40_0000_0000 && bounded(a.e(4)),
        iabs(fmul(a.e(4), b.e(4))) <= 0x40_0000_0000,
        iabs(fmul(a.e(4), b.e(5))) <= 0x40_0000_0000,
        iabs(fmul(a.e(5), b.e(6))) <= 0x40_0000_0000 && bounded(a.e(5)),
        iabs(fmul(a.e(5), b.e(7))) <= 0x40_0000_0000,
        iabs(fmul(a.e(5), b.e(8))) <= 0x40_0000_0000,
        iabs(fmul(a.e(6), b.e(0))) <= 0x40_0000_0000 && bounded(a.e(6)),
        iabs(fmul(a.e(6), b.e(1))) <= 0x40_0000_0000,
        iabs(fmul(a.e(6), b.e(2))) <= 0x40_0000_0000,
        iabs(fmul(a.e(7), b.e(3))) <= 0x40_0000_0000 && bounded(a.e(7)),
        iabs(fmul(a.e(7), b.e(4))) <= 0x40_0000_0000,
        iabs(fmul(a.e(7), b.e(5))) <= 0x40_0000_0000,
        iabs(fmul(a.e(8), b.e(6))) <= 0x40_0000_0000 && bounded(a.e(8)),
        iabs(fmul(a.e(8), b.e(7))) <= 0x40_0000_0000,
        iabs(fmul(a.e(8), b.e(8))) <= 0x40_0000_0000,
{
    lemma_fmul_le(a.e(0), b.e(0), MAT_LIM as int);
    lemma_fmul_le(a.e(0), b.e(1), MAT_LIM as int);
    lemma_fmul_le(a.e(0), b.e(2), MAT_LIM as int);
    lemma_fmul_le(a.e(1), b.e(3), MAT_LIM as int);
    lemma_fmul_le(a.e(1), b.e(4), MAT_LIM as int);
    lemma_fmul_le(a.e(1), b.e(5), MAT_LIM as int);
    lemma_fmul_le(a.e(2), b.e(6), MAT_LIM as int);
    lemma_fmul_le(a.e(2), b.e(7), MAT_LIM as int);
    lemma_fmul_le(a.e(2), b.e(8), MAT_LIM as int);
    lemma_fmul_le(a.e(3), b.e(0), MAT_LIM as int);
    lemma_fmul_le(a.e(3), b.e(1), MAT_LIM as int);
    lemma_fmul_le(a.e(3), b.e(2), MAT_LIM as int);
    lemma_fmul_le(a.e(4), b.e(3), MAT_LIM as int);
    lemma_fmul_le(a.e(4), b.e(4), MAT_LIM as int);
    lemma_fmul_le(a.e(4), b.e(5), MAT_LIM as int);
    lemma_fmul_le(a.e(5), b.e(6), MAT_LIM as int);
    lemma_fmul_le(a.e(5), b.e(7), MAT_LIM as int);
    lemma_fmul_le(a.e(5), b.e(8), MAT_LIM as int);
    lemma_fmul_le(a.e(6), b.e(0), MAT_LIM as int);
    lemma_fmul_le(a.e(6), b.e(1), MAT_LIM as int);
    lemma_fmul_le(a.e(6), b.e(2), MAT_LIM as int);
    lemma_fmul_le(a.e(7), b.e(3), MAT_LIM as int);
    lemma_fmul_le(a.e(7), b.e(4), MAT_LIM as int);
    lemma_fmul_le(a.e(7), b.e(5), MAT_LIM as int);
    lemma_fmul_le(a.e(8), b.e(6), MAT_LIM as int);
    lemma_fmul_le(a.e(8), b.e(7), MAT_LIM as int);
    lemma_fmul_le(a.e(8), b.e(8), MAT_LIM as int);
}

/// The entries of the inverse of a 3×3 matrix: each cofactor times the
/// reciprocal of the determinant.
pub open spec fn m3_inverse_entries(m: Matrix3, inv: Matrix3) -> bool {
    let invd = fdiv(SCALE as int, det3(m));
    &&& inv.e(0) == fmul(fmul(m.e(4), m.e(8)) - fmul(m.e(5), m.e(7)), invd)
    &&& inv.e(1) == fmul(-(fmul(m.e(1), m.e(8)) - fmul(m.e(2), m.e(7))), invd)
    &&& inv.e(2) == fmul(fmul(m.e(1), m.e(5)) - fmul(m.e(2), m.e(4)), invd)
    &&& inv.e(3) == fmul(-(fmul(m.e(3), m.e(8)) - fmul(m.e(5), m.e(6))), invd)
    &&& inv.e(4) == fmul(fmul(m.e(0), m.e(8)) - fmul(m.e(2), m.e(6)), invd)
    &&& inv.e(5) == fmul(-(fmul(m.e(0), m.e(5)) - fmul(m.e(2), m.e(3))), invd)
    &&& inv.e(6) == fmul(fmul(m.e(3), m.e(7)) - fmul(m.e(4), m.e(6)), invd)
    &&& inv.e(7) == fmul(-(fmul(m.e(0), m.e(7)) - fmul(m.e(1), m.e(6))), invd)
    &&& inv.e(8) == fmul(fmul(m.e(0), m.e(4)) - fmul(m.e(1), m.e(3)), invd)
}


/// The translation column of a 3×4 transform.
pub open spec fn m4_translation(m: Matrix4) -> V3 {
    V3 { x: m.e(3), y: m.e(7), z: m.e(11) }
}

/// The transpose of the rotational part applied to a mathematical vector.
pub open spec fn m4_inv_dir3(m: Matrix4, a: V3) -> V3 {
    V3 {
        x: fmul(a.x, m.e(0)) + fmul(a.y, m.e(4)) + fmul(a.z, m.e(8)),
        y: fmul(a.x, m.e(1)) + fmul(a.y, m.e(5)) + fmul(a.z, m.e(9)),
        z: fmul(a.x, m.e(2)) + fmul(a.y, m.e(6)) + fmul(a.z, m.e(10)),
    }
}

/// A 3×4 transform applied backward to a point: subtract the translation,
/// then apply the transposed rotation.
pub open spec fn m4_xform_inverse(m: Matrix4, v: Vec3) -> V3 {
    m4_inv_dir3(m, vsub(vv(v), m4_translation(m)))
}

/// The reciprocal of the determinant of the rotational part.
pub open spec fn invd4(m: Matrix4) -> int {
    fdiv(SCALE as int, det4(m))
}

/// The cofactor of the first translation entry of the inverse transform.
pub open spec fn m4_cof3(m: Matrix4) -> int {
    fmul(fmul(m.e(9), m.e(6)), m.e(3)) - fmul(fmul(m.e(5), m.e(10)), m.e(3)) - fmul(
        fmul(m.e(9), m.e(2)),
        m.e(7),
    ) + fmul(fmul(m.e(1), m.e(10)), m.e(7)) + fmul(fmul(m.e(5), m.e(2)), m.e(11)) - fmul(
        fmul(m.e(1), m.e(6)),
        m.e(11),
    )
}

/// The cofactor of the second translation entry of the inverse transform.
pub open spec fn m4_cof7(m: Matrix4) -> int {
    -fmul(fmul(m.e(8), m.e(6)), m.e(3)) + fmul(fmul(m.e(4), m.e(10)), m.e(3)) + fmul(
        fmul(m.e(8), m.e(2)),
        m.e(7),
    ) - fmul(fmul(m.e(0), m.e(10)), m.e(7)) - fmul(fmul(m.e(4), m.e(2)), m.e(11)) + fmul(
        fmul(m.e(0), m.e(6)),
        m.e(11),
    )
}

/// The cofactor of the third translation entry of the inverse transform.
pub open spec fn m4_cof11(m: Matrix4) -> int {
    fmul(fmul(m.e(8), m.e(5)), m.e(3)) - fmul(fmul(m.e(4), m.e(9)), m.e(3)) - fmul(
        fmul(m.e(8), m.e(1)),
        m.e(7),
    ) + fmul(fmul(m.e(0), m.e(9)), m.e(7)) + fmul(fmul(m.e(4), m.e(1)), m.e(11)) - fmul(
        fmul(m.e(0), m.e(5)),
        m.e(11),
    )
}

/// The entries of the inverse of a 3×4 transform.
pub open spec fn m4_inverse_entries(m: Matrix4, inv: Matrix4) -> bool {
    let invd = invd4(m);
    &&& inv.e(0) == fmul(fmul(m.e(5), m.e(10)) - fmul(m.e(9), m.e(6)), invd)
    &&& inv.e(4) == fmul(fmul(m.e(8), m.e(6)) - fmul(m.e(4), m.e(10)), invd)
    &&& inv.e(8) == fmul(fmul(m.e(4), m.e(9)) - fmul(m.e(8), m.e(5)), invd)
    &&& inv.e(1) == fmul(fmul(m.e(9), m.e(2)) - fmul(m.e(1), m.e(10)), invd)
    &&& inv.e(5) == fmul(fmul(m.e(0), m.e(10)) - fmul(m.e(8), m.e(2)), invd)
    &&& inv.e(9) == fmul(fmul(m.e(8), m.e(1)) - fmul(m.e(0), m.e(9)), invd)
    &&& inv.e(2) == fmul(fmul(m.e(1), m.e(6)) - fmul(m.e(5), m.e(2)), invd)
    &&& inv.e(6) == fmul(fmul(m.e(4), m.e(2)) - fmul(m.e(0), m.e(6)), invd)
    &&& inv.e(10) == fmul(fmul(m.e(0), m.e(5)) - fmul(m.e(4), m.e(1)), invd)
    &&& inv.e(3) == fmul(m4_cof3(m), invd)
    &&& inv.e(7) == fmul(m4_cof7(m), invd)
    &&& inv.e(11) == fmul(m4_cof11(m), invd)
}

/// The machine limits the inverse of a 3×4 transform needs: the three
/// translation entries of the result fit in an `i64`.
pub open spec fn m4_inv_fits(m: Matrix4) -> bool {
    det4(m) != 0 ==> iabs(fmul(m4_cof3(m), invd4(m))) <= i64::MAX && iabs(
        fmul(m4_cof7(m), invd4(m)),
    ) <= i64::MAX && iabs(fmul(m4_cof11(m), invd4(m))) <= i64::MAX
}

/// Entry `(r, c)` of the product of two 3×4 transforms (the product as 4×4
/// homogeneous matrices with last row `[0, 0, 0, 1]`).
pub open spec fn m4_prod_e(a: Matrix4, b: Matrix4, r: int, c: int) -> int {
    let base = fmul(b.e(c), a.e(4 * r)) + fmul(b.e(c + 4), a.e(4 * r + 1)) + fmul(
        b.e(c + 8),
        a.e(4 * r + 2),
    );
    if c == 3 {
        base + a.e(4 * r + 3)
    } else {
        base
    }
}

impl Matrix4 {
    /// The zero transform.
    pub fn new() -> (m: Matrix4)
        ensures
            forall|i: int| 0 <= i < 12 ==> #[trigger] m.e(i) == 0,
            m.wf(),
    {
        Matrix4 { data: [0, 0, 0, 0, 0, 0, 0, 0, 0, 0, 0, 0] }
    }

    /// The transform applied to a point: rotate, then translate.
    pub fn transform(&self, v: &Vec3) -> (r: Vec3)
        requires
            self.wf(),
            bounded_vec(*v),
        ensures
            vv(r) == m4_xform(*self, *v),
    {
        proof {
            lemma_fmul_bound(v.x as int, self.e(0));
            lemma_fmul_bound(v.y as int, self.e(1));
            lemma_fmul_bound(v.z as int, self.e(2));
            lemma_fmul_bound(v.x as int, self.e(4));
            lemma_fmul_bound(v.y as int, self.e(5));
            lemma_fmul_bound(v.z as int, self.e(6));
            lemma_fmul_bound(v.x as int, self.e(8));
            lemma_fmul_bound(v.y as int, self.e(9));
            lemma_fmul_bound(v.z as int, self.e(10));
        }
        Vec3 {
            x: fx_mul(v.x, self.data[0]) + fx_mul(v.y, self.data[1]) + fx_mul(v.z, self.data[2])
                + self.data[3],
            y: fx_mul(v.x, self.data[4]) + fx_mul(v.y, self.data[5]) + fx_mul(v.z, self.data[6])
                + self.data[7],
            z: fx_mul(v.x, self.data[8]) + fx_mul(v.y, self.data[9]) + fx_mul(v.z, self.data[10])
                + self.data[11],
        }
    }

    /// The rotational part applied to a direction: no translation.
    pub fn transform_direction(&self, v: Vec3) -> (r: Vec3)
        requires
            self.wf(),
            bounded_vec(v),
        ensures
            vv(r) == m4_xform_dir(*self, v),
    {
        proof {
            lemma_fmul_bound(v.x as int, self.e(0));
            lemma_fmul_bound(v.y as int, self.e(1));
            lemma_fmul_bound(v.z as int, self.e(2));
            lemma_fmul_bound(v.x as int, self.e(4));
            lemma_fmul_bound(v.y as int, self.e(5));
            lemma_fmul_bound(v.z as int, self.e(6));
            lemma_fmul_bound(v.x as int, self.e(8));
            lemma_fmul_bound(v.y as int, self.e(9));
            lemma_fmul_bound(v.z as int, self.e(10));
        }
        Vec3 {
            x: fx_mul(v.x, self.data[0]) + fx_mul(v.y, self.data[1]) + fx_mul(v.z, self.data[2]),
            y: fx_mul(v.x, self.data[4]) + fx_mul(v.y, self.data[5]) + fx_mul(v.z, self.data[6]),
            z: fx_mul(v.x, self.data[8]) + fx_mul(v.y, self.data[9]) + fx_mul(v.z, self.data[10]),
        }
    }

    /// The transposed rotational part applied to a direction: the inverse
    /// rotation, for a pure rotation matrix.
    pub fn transform_inverse_direction(&self, v: Vec3) -> (r: Vec3)
        requires
            self.wf(),
            bounded_vec(v),
        ensures
            vv(r) == m4_inv_dir3(*self, vv(v)),
    {
        proof {
            lemma_fmul_bound(v.x as int, self.e(0));
            lemma_fmul_bound(v.y as int, self.e(4));
            lemma_fmul_bound(v.z as int, self.e(8));
            lemma_fmul_bound(v.x as int, self.e(1));
            lemma_fmul_bound(v.y as int, self.e(5));
            lemma_fmul_bound(v.z as int, self.e(9));
            lemma_fmul_bound(v.x as int, self.e(2));
            lemma_fmul_bound(v.y as int, self.e(6));
            lemma_fmul_bound(v.z as int, self.e(10));
        }
        Vec3 {
            x: fx_mul(v.x, self.data[0]) + fx_mul(v.y, self.data[4]) + fx_mul(v.z, self.data[8]),
            y: fx_mul(v.x, self.data[1]) + fx_mul(v.y, self.data[5]) + fx_mul(v.z, self.data[9]),
            z: fx_mul(v.x, self.data[2]) + fx_mul(v.y, self.data[6]) + fx_mul(v.z, self.data[10]),
        }
    }

    /// The transform applied backward to a point: subtract the translation,
    /// then apply the transposed rotation.
    pub fn transform_inverse(&self, v: Vec3) -> (r: Vec3)
        requires
            self.wf(),
            bounded3(vsub(vv(v), m4_translation(*self))),
        ensures
            vv(r) == m4_xform_inverse(*self, v),
    {
        let t = Vec3 {
            x: v.x - self.data[3],
            y: v.y - self.data[7],
            z: v.z - self.data[11],
        };
        self.transform_inverse_direction(t)
    }

    /// The determinant of the rotational part.
    pub fn get_determinant(&self) -> (r: i64)
        requires
            self.wf(),
        ensures
            r == det4(*self),
    {
        proof {
            lemma_mat_product_small(self.e(8), self.e(5));
            lemma_mat_product_small(self.e(4), self.e(9));
            lemma_mat_product_small(self.e(8), self.e(1));
            lemma_mat_product_small(self.e(0), self.e(9));
            lemma_mat_product_small(self.e(4), self.e(1));
            lemma_mat_product_small(self.e(0), self.e(5));
            lemma_fmul_le2(fmul(self.e(8), self.e(5)), self.e(2), 0x40_0000_0000, MAT_LIM as int);
            lemma_fmul_le2(fmul(self.e(4), self.e(9)), self.e(2), 0x40_0000_0000, MAT_LIM as int);
            lemma_fmul_le2(fmul(self.e(8), self.e(1)), self.e(6), 0x40_0000_0000, MAT_LIM as int);
            lemma_fmul_le2(fmul(self.e(0), self.e(9)), self.e(6), 0x40_0000_0000, MAT_LIM as int);
            lemma_fmul_le2(fmul(self.e(4), self.e(1)), self.e(10), 0x40_0000_0000, MAT_LIM as int);
            lemma_fmul_le2(fmul(self.e(0), self.e(5)), self.e(10), 0x40_0000_0000, MAT_LIM as int);
        }
        let d = &self.data;
        fx_mul(fx_mul(d[8], d[5]), d[2]) + fx_mul(fx_mul(d[4], d[9]), d[2]) + fx_mul(
            fx_mul(d[8], d[1]),
            d[6],
        ) - fx_mul(fx_mul(d[0], d[9]), d[6]) - fx_mul(fx_mul(d[4], d[1]), d[10]) + fx_mul(
            fx_mul(d[0], d[5]),
            d[10],
        )
    }

    /// The inverse as a homogeneous transform, or nothing when the rotational
    /// part is singular (determinant exactly zero): a degenerate transform
    /// has no inverse, and the caller must handle that case itself.
    pub fn get_inverse(&self) -> (r: Option<Matrix4>)
        requires
            self.wf(),
            m4_inv_fits(*self),
        ensures
            r is None <==> det4(*self) == 0,
            match r {
                None => true,
                Some(m) => m4_inverse_entries(*self, m),
            },
    {
        let det = self.get_determinant();
        if det == 0 {
            return None;
        }
        proof {
            crate::fixed::lemma_fdiv_bound(SCALE as int, det as int);
            vstd::arithmetic::div_mod::lemma_div_pos_is_pos(SCALE as int * SCALE, iabs(det as int));
            vstd::arithmetic::div_mod::lemma_div_nonincreasing(
                SCALE as int * SCALE,
                iabs(det as int),
            );
            lemma_mat_product_small(self.e(5), self.e(10));
            lemma_mat_product_small(self.e(9), self.e(6));
            lemma_mat_product_small(self.e(8), self.e(6));
            lemma_mat_product_small(self.e(4), self.e(10));
            lemma_mat_product_small(self.e(4), self.e(9));
            lemma_mat_product_small(self.e(8), self.e(5));
            lemma_mat_product_small(self.e(9), self.e(2));
            lemma_mat_product_small(self.e(1), self.e(10));
            lemma_mat_product_small(self.e(0), self.e(10));
            lemma_mat_product_small(self.e(8), self.e(2));
            lemma_mat_product_small(self.e(8), self.e(1));
            lemma_mat_product_small(self.e(0), self.e(9));
            lemma_mat_product_small(self.e(1), self.e(6));
            lemma_mat_product_small(self.e(5), self.e(2));
            lemma_mat_product_small(self.e(4), self.e(2));
            lemma_mat_product_small(self.e(0), self.e(6));
            lemma_mat_product_small(self.e(0), self.e(5));
            lemma_mat_product_small(self.e(4), self.e(1));
            lemma_fmul_le2(fmul(self.e(9), self.e(6)), self.e(3), 0x40_0000_0000, MAT_LIM as int);
            lemma_fmul_le2(fmul(self.e(5), self.e(10)), self.e(3), 0x40_0000_0000, MAT_LIM as int);
            lemma_fmul_le2(fmul(self.e(9), self.e(2)), self.e(7), 0x40_0000_0000, MAT_LIM as int);
            lemma_fmul_le2(fmul(self.e(1), self.e(10)), self.e(7), 0x40_0000_0000, MAT_LIM as int);
            lemma_fmul_le2(fmul(self.e(5), self.e(2)), self.e(11), 0x40_0000_0000, MAT_LIM as int);
            lemma_fmul_le2(fmul(self.e(1), self.e(6)), self.e(11), 0x40_0000_0000, MAT_LIM as int);
            lemma_fmul_le2(fmul(self.e(8), self.e(6)), self.e(3), 0x40_0000_0000, MAT_LIM as int);
            lemma_fmul_le2(fmul(self.e(4), self.e(10)), self.e(3), 0x40_0000_0000, MAT_LIM as int);
            lemma_fmul_le2(fmul(self.e(8), self.e(2)), self.e(7), 0x40_0000_0000, MAT_LIM as int);
            lemma_fmul_le2(fmul(self.e(0), self.e(10)), self.e(7), 0x40_0000_0000, MAT_LIM as int);
            lemma_fmul_le2(fmul(self.e(4), self.e(2)), self.e(11), 0x40_0000_0000, MAT_LIM as int);
            lemma_fmul_le2(fmul(self.e(0), self.e(6)), self.e(11), 0x40_0000_0000, MAT_LIM as int);
            lemma_fmul_le2(fmul(self.e(8), self.e(5)), self.e(3), 0x40_0000_0000, MAT_LIM as int);
            lemma_fmul_le2(fmul(self.e(4), self.e(9)), self.e(3), 0x40_0000_0000, MAT_LIM as int);
            lemma_fmul_le2(fmul(self.e(8), self.e(1)), self.e(7), 0x40_0000_0000, MAT_LIM as int);
            lemma_fmul_le2(fmul(self.e(0), self.e(9)), self.e(7), 0x40_0000_0000, MAT_LIM as int);
            lemma_fmul_le2(fmul(self.e(4), self.e(1)), self.e(11), 0x40_0000_0000, MAT_LIM as int);
            lemma_fmul_le2(fmul(self.e(0), self.e(5)), self.e(11), 0x40_0000_0000, MAT_LIM as int);
        }
        let invd = fx_div(SCALE, det);
        let d = &self.data;
        Some(
            Matrix4 {
                data: [
                    fx_mul(fx_mul(d[5], d[10]) - fx_mul(d[9], d[6]), invd),
                    fx_mul(fx_mul(d[9], d[2]) - fx_mul(d[1], d[10]), invd),
                    fx_mul(fx_mul(d[1], d[6]) - fx_mul(d[5], d[2]), invd),
                    fx_mul_wide(
                        fx_mul(fx_mul(d[9], d[6]), d[3]) - fx_mul(fx_mul(d[5], d[10]), d[3])
                            - fx_mul(fx_mul(d[9], d[2]), d[7]) + fx_mul(fx_mul(d[1], d[10]), d[7])
                            + fx_mul(fx_mul(d[5], d[2]), d[11]) - fx_mul(fx_mul(d[1], d[6]), d[11]),
                        invd,
                    ),
                    fx_mul(fx_mul(d[8], d[6]) - fx_mul(d[4], d[10]), invd),
                    fx_mul(fx_mul(d[0], d[10]) - fx_mul(d[8], d[2]), invd),
                    fx_mul(fx_mul(d[4], d[2]) - fx_mul(d[0], d[6]), invd),
                    fx_mul_wide(
                        -fx_mul(fx_mul(d[8], d[6]), d[3]) + fx_mul(fx_mul(d[4], d[10]), d[3])
                            + fx_mul(fx_mul(d[8], d[2]), d[7]) - fx_mul(fx_mul(d[0], d[10]), d[7])
                            - fx_mul(fx_mul(d[4], d[2]), d[11]) + fx_mul(fx_mul(d[0], d[6]), d[11]),
                        invd,
                    ),
                    fx_mul(fx_mul(d[4], d[9]) - fx_mul(d[8], d[5]), invd),
                    fx_mul(fx_mul(d[8], d[1]) - fx_mul(d[0], d[9]), invd),
                    fx_mul(fx_mul(d[0], d[5]) - fx_mul(d[4], d[1]), invd),
                    fx_mul_wide(
                        fx_mul(fx_mul(d[8], d[5]), d[3]) - fx_mul(fx_mul(d[4], d[9]), d[3])
                            - fx_mul(fx_mul(d[8], d[1]), d[7]) + fx_mul(fx_mul(d[0], d[9]), d[7])
                            + fx_mul(fx_mul(d[4], d[1]), d[11]) - fx_mul(fx_mul(d[0], d[5]), d[11]),
                        invd,
                    ),
                ],
            },
        )
    }

    /// Replaces the transform by its inverse; a singular one is left as it
    /// is.
    pub fn invert(&mut self)
        requires
            old(self).wf(),
            m4_inv_fits(*old(self)),
        ensures
            det4(*old(self)) == 0 ==> *final(self) == *old(self),
            det4(*old(self)) != 0 ==> m4_inverse_entries(*old(self), *final(self)),
    {
        if let Some(m) = self.get_inverse() {
            *self = m;
        }
    }

    /// Sets the transform to the rotation of the given unit quaternion and
    /// the given position.
    pub fn set_orientation_and_pos(&mut self, q: &Quaternion, pos: &Vec3)
        requires
            bounded_quat(*q),
        ensures
            final(self).e(0) == rot_e(*q, 0),
            final(self).e(1) == rot_e(*q, 1),
            final(self).e(2) == rot_e(*q, 2),
            final(self).e(3) == pos.x as int,
            final(self).e(4) == rot_e(*q, 3),
            final(self).e(5) == rot_e(*q, 4),
            final(self).e(6) == rot_e(*q, 5),
            final(self).e(7) == pos.y as int,
            final(self).e(8) == rot_e(*q, 6),
            final(self).e(9) == rot_e(*q, 7),
            final(self).e(10) == rot_e(*q, 8),
            final(self).e(11) == pos.z as int,
    {
        proof {
            lemma_fmul_bound(q.r as int, q.i as int);
            lemma_fmul_bound(q.r as int, q.j as int);
            lemma_fmul_bound(q.r as int, q.k as int);
            lemma_fmul_bound(q.i as int, q.i as int);
            lemma_fmul_bound(q.i as int, q.j as int);
            lemma_fmul_bound(q.i as int, q.k as int);
            lemma_fmul_bound(q.j as int, q.j as int);
            lemma_fmul_bound(q.j as int, q.k as int);
            lemma_fmul_bound(q.k as int, q.k as int);
        }
        self.data = [
            SCALE - 2 * fx_mul(q.j, q.j) - 2 * fx_mul(q.k, q.k),
            2 * fx_mul(q.i, q.j) - 2 * fx_mul(q.r, q.k),
            2 * fx_mul(q.i, q.k) + 2 * fx_mul(q.r, q.j),
            pos.x,
            2 * fx_mul(q.i, q.j) + 2 * fx_mul(q.r, q.k),
            SCALE - 2 * fx_mul(q.i, q.i) - 2 * fx_mul(q.k, q.k),
            2 * fx_mul(q.j, q.k) - 2 * fx_mul(q.r, q.i),
            pos.y,
            2 * fx_mul(q.i, q.k) - 2 * fx_mul(q.r, q.j),
            2 * fx_mul(q.j, q.k) + 2 * fx_mul(q.r, q.i),
            SCALE - 2 * fx_mul(q.i, q.i) - 2 * fx_mul(q.j, q.j),
            pos.z,
        ];
    }

    /// The product `self * m` of two transforms, as homogeneous 4×4 matrices:
    /// the transform that performs `m` first and then `self`.
    pub fn mul(&self, m: &Matrix4) -> (r: Matrix4)
        requires
            self.wf(),
            m.wf(),
        ensures
            r.e(0) == m4_prod_e(*self, *m, 0, 0),
            r.e(1) == m4_prod_e(*self, *m, 0, 1),
            r.e(2) == m4_prod_e(*self, *m, 0, 2),
            r.e(3) == m4_prod_e(*self, *m, 0, 3),
            r.e(4) == m4_prod_e(*self, *m, 1, 0),
            r.e(5) == m4_prod_e(*self, *m, 1, 1),
            r.e(6) == m4_prod_e(*self, *m, 1, 2),
            r.e(7) == m4_prod_e(*self, *m, 1, 3),
            r.e(8) == m4_prod_e(*self, *m, 2, 0),
            r.e(9) == m4_prod_e(*self, *m, 2, 1),
            r.e(10) == m4_prod_e(*self, *m, 2, 2),
            r.e(11) == m4_prod_e(*self, *m, 2, 3),
    {
        proof {
            lemma_mat_product_small(m.e(0), self.e(0));
            lemma_mat_product_small(m.e(4), self.e(1));
            lemma_mat_product_small(m.e(8), self.e(2));
            lemma_mat_product_small(m.e(1), self.e(0));
            lemma_mat_product_small(m.e(5), self.e(1));
            lemma_mat_product_small(m.e(9), self.e(2));
            lemma_mat_product_small(m.e(2), self.e(0));
            lemma_mat_product_small(m.e(6), self.e(1));
            lemma_mat_product_small(m.e(10), self.e(2));
            lemma_mat_product_small(m.e(3), self.e(0));
            lemma_mat_product_small(m.e(7), self.e(1));
            lemma_mat_product_small(m.e(11), self.e(2));
            lemma_mat_product_small(m.e(0), self.e(4));
            lemma_mat_product_small(m.e(4), self.e(5));
            lemma_mat_product_small(m.e(8), self.e(6));
            lemma_mat_product_small(m.e(1), self.e(4));
            lemma_mat_product_small(m.e(5), self.e(5));
            lemma_mat_product_small(m.e(9), self.e(6));
            lemma_mat_product_small(m.e(2), self.e(4));
            lemma_mat_product_small(m.e(6), self.e(5));
            lemma_mat_product_small(m.e(10), self.e(6));
            lemma_mat_product_small(m.e(3), self.e(4));
            lemma_mat_product_small(m.e(7), self.e(5));
            lemma_mat_product_small(m.e(11), self.e(6));
            lemma_mat_product_small(m.e(0), self.e(8));
            lemma_mat_product_small(m.e(4), self.e(9));
            lemma_mat_product_small(m.e(8), self.e(10));
            lemma_mat_product_small(m.e(1), self.e(8));
            lemma_mat_product_small(m.e(5), self.e(9));
            lemma_mat_product_small(m.e(9), self.e(10));
            lemma_mat_product_small(m.e(2), self.e(8));
            lemma_mat_product_small(m.e(6), self.e(9));
            lemma_mat_product_small(m.e(10), self.e(10));
            lemma_mat_product_small(m.e(3), self.e(8));
            lemma_mat_product_small(m.e(7), self.e(9));
            lemma_mat_product_small(m.e(11), self.e(10));
        }
        let a = &self.data;
        let b = &m.data;
        Matrix4 {
            data: [
                fx_mul(b[0], a[0]) + fx_mul(b[4], a[1]) + fx_mul(b[8], a[2]),
                fx_mul(b[1], a[0]) + fx_mul(b[5], a[1]) + fx_mul(b[9], a[2]),
                fx_mul(b[2], a[0]) + fx_mul(b[6], a[1]) + fx_mul(b[10], a[2]),
                fx_mul(b[3], a[0]) + fx_mul(b[7], a[1]) + fx_mul(b[11], a[2]) + a[3],
                fx_mul(b[0], a[4]) + fx_mul(b[4], a[5]) + fx_mul(b[8], a[6]),
                fx_mul(b[1], a[4]) + fx_mul(b[5], a[5]) + fx_mul(b[9], a[6]),
                fx_mul(b[2], a[4]) + fx_mul(b[6], a[5]) + fx_mul(b[10], a[6]),
                fx_mul(b[3], a[4]) + fx_mul(b[7], a[5]) + fx_mul(b[11], a[6]) + a[7],
                fx_mul(b[0], a[8]) + fx_mul(b[4], a[9]) + fx_mul(b[8], a[10]),
                fx_mul(b[1], a[8]) + fx_mul(b[5], a[9]) + fx_mul(b[9], a[10]),
                fx_mul(b[2], a[8]) + fx_mul(b[6], a[9]) + fx_mul(b[10], a[10]),
                fx_mul(b[3], a[8]) + fx_mul(b[7], a[9]) + fx_mul(b[11], a[10]) + a[11],
            ],
        }
    }
}

impl Vec3 {
    /// The point carried from local space to world space by a transform.
    pub fn local_to_world(&self, transform: Matrix4) -> (r: Vec3)
        requires
            transform.wf(),
            bounded_vec(*self),
        ensures
            vv(r) == m4_xform(transform, *self),
    {
        transform.transform(self)
    }

    /// The point carried from world space back to local space.
    pub fn world_to_local(&self, transform: Matrix4) -> (r: Vec3)
        requires
            transform.wf(),
            bounded3(vsub(vv(*self), m4_translation(transform))),
        ensures
            vv(r) == m4_xform_inverse(transform, *self),
    {
        transform.transform_inverse(*self)
    }

    /// The direction carried from local space to world space: rotation only.
    pub fn local_to_world_dir(&self, transform: Matrix4) -> (r: Vec3)
        requires
            transform.wf(),
            bounded_vec(*self),
        ensures
            vv(r) == m4_xform_dir(transform, *self),
    {
        transform.transform_direction(*self)
    }

    /// The direction carried from world space back to local space.
    pub fn world_to_local_dir(&self, transform: Matrix4) -> (r: Vec3)
        requires
            transform.wf(),
            bounded_vec(*self),
        ensures
            vv(r) == m4_inv_dir3(transform, vv(*self)),
    {
        transform.transform_inverse_direction(*self)
    }
}

} // verus!
