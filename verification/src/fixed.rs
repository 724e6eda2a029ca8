//! Fixed-point scalar arithmetic.
//!
//! A simulation scalar is an `i64` holding the real value multiplied by
//! [`SCALE`]: one unit of length, velocity or time is `SCALE` ticks. Products
//! and quotients are rounded toward zero, so every arithmetic operation has an
//! exact integer specification.

use vstd::prelude::*;

verus! {

/// Ticks per unit: a scalar `x` stands for the real number `x / SCALE`.
pub const SCALE: i64 = 1048576;

/// Magnitude bound accepted by the arithmetic helpers. Keeping both operands
/// of a product within `LIM` keeps the scaled product within `i64`.
pub const LIM: i64 = 0x100_0000_0000;

/// The absolute value of a mathematical integer.
pub open spec fn iabs(x: int) -> int {
    if x >= 0 {
        x
    } else {
        -x
    }
}

/// A scalar the arithmetic helpers accept: within `LIM` ticks of zero.
pub open spec fn bounded(x: int) -> bool {
    -LIM <= x <= LIM
}

/// Division by `SCALE` rounded toward zero; the rounding step of a product.
pub open spec fn descale(p: int) -> int {
    if p >= 0 {
        p / (SCALE as int)
    } else {
        -((-p) / (SCALE as int))
    }
}

/// The fixed-point product: `a * b / SCALE`, rounded toward zero.
pub open spec fn fmul(a: int, b: int) -> int {
    descale(a * b)
}

/// The fixed-point quotient: `a * SCALE / b`, rounded toward zero.
/// Unspecified when `b == 0`, as integer division is.
pub open spec fn fdiv(a: int, b: int) -> int {
    if (a >= 0) == (b >= 0) {
        (iabs(a) * SCALE) / iabs(b)
    } else {
        -((iabs(a) * SCALE) / iabs(b))
    }
}

/// The fixed-point product of two bounded scalars stays within `i64`
/// (its magnitude is at most `LIM * LIM / SCALE`).
pub proof fn lemma_fmul_bound(a: int, b: int)
    requires
        bounded(a),
        bounded(b),
    ensures
        iabs(fmul(a, b)) <= 0x1000_0000_0000_0000,
        iabs(a * b) <= 0x10000_0000_0000_0000_0000,
{
    assert(iabs(a * b) <= 0x10000_0000_0000_0000_0000) by (nonlinear_arith)
        requires
            -LIM <= a <= LIM,
            -LIM <= b <= LIM,
    ;
    assert(iabs(descale(a * b)) <= 0x1000_0000_0000_0000) by (nonlinear_arith)
        requires
            iabs(a * b) <= 0x10000_0000_0000_0000_0000,
    ;
}

pub fn fx_mul(a: i64, b: i64) -> (c: i64)
    requires
        bounded(a as int),
        bounded(b as int),
    ensures
        c == fmul(a as int, b as int),
{
    proof {
        lemma_fmul_bound(a as int, b as int);
    }
    let p: i128 = (a as i128) * (b as i128);
    if p >= 0 {
        let q: u128 = (p as u128) / (SCALE as u128);
        q as i64
    } else {
        let m: u128 = (-p) as u128;
        let q: u128 = m / (SCALE as u128);
        -(q as i64)
    }
}

/// The magnitude of a fixed-point quotient with a bounded dividend and a
/// nonzero divisor stays within `i64`.
pub proof fn lemma_fdiv_bound(a: int, b: int)
    requires
        iabs(a) <= 0x400_0000_0000,
        b != 0,
    ensures
        iabs(fdiv(a, b)) <= 0x4000_0000_0000_0000,
        0 <= iabs(a) * SCALE <= 0x4000_0000_0000_0000,
{
    assert(0 <= iabs(a) * SCALE <= 0x4000_0000_0000_0000) by (nonlinear_arith)
        requires
            iabs(a) <= 0x400_0000_0000 && iabs(a) >= 0,
    ;
    vstd::arithmetic::div_mod::lemma_div_nonincreasing(iabs(a) * SCALE, iabs(b));
}

pub fn fx_div(a: i64, b: i64) -> (c: i64)
    requires
        iabs(a as int) <= 0x400_0000_0000,
        b != 0,
    ensures
        c == fdiv(a as int, b as int),
{
    proof {
        lemma_fdiv_bound(a as int, b as int);
    }
    let ma: u128 = if a >= 0 {
        a as u128
    } else {
        (-(a as i128)) as u128
    };
    let mb: u128 = if b >= 0 {
        b as u128
    } else {
        (-(b as i128)) as u128
    };
    let q: u128 = (ma * (SCALE as u128)) / mb;
    if (a >= 0) == (b >= 0) {
        q as i64
    } else {
        -(q as i64)
    }
}

/// The integer square root of a non-negative integer: the unique `r >= 0`
/// with `r * r <= n < (r + 1) * (r + 1)`.
pub open spec fn isqrt(n: int) -> int {
    choose|r: int| 0 <= r && #[trigger] (r * r) <= n && n < (r + 1) * (r + 1)
}

/// Every non-negative integer has an integer square root.
pub proof fn lemma_isqrt_exists(n: int) -> (r: int)
    requires
        n >= 0,
    ensures
        0 <= r && r * r <= n && n < (r + 1) * (r + 1),
    decreases n,
{
    if n == 0 {
        0
    } else {
        let p = lemma_isqrt_exists(n - 1);
        if (p + 1) * (p + 1) == n {
            assert(n < (p + 2) * (p + 2)) by (nonlinear_arith)
                requires
                    p >= 0,
                    n == (p + 1) * (p + 1),
            ;
            p + 1
        } else {
            p
        }
    }
}

/// The characterization `r * r <= n < (r + 1) * (r + 1)` picks out exactly
/// one non-negative integer, namely `isqrt(n)`.
pub proof fn lemma_isqrt_unique(n: int, r: int)
    requires
        0 <= r,
        r * r <= n,
        n < (r + 1) * (r + 1),
    ensures
        r == isqrt(n),
{
    assert(exists|q: int| 0 <= q && #[trigger] (q * q) <= n && n < (q + 1) * (q + 1)) by {
        assert(0 <= r && r * r <= n && n < (r + 1) * (r + 1));
    }
    let s = isqrt(n);
    assert(0 <= s && s * s <= n && n < (s + 1) * (s + 1));
    if r < s {
        assert(false) by (nonlinear_arith)
            requires
                0 <= r < s,
                s * s <= n,
                n < (r + 1) * (r + 1),
        ;
    }
    if s < r {
        assert(false) by (nonlinear_arith)
            requires
                0 <= s < r,
                r * r <= n,
                n < (s + 1) * (s + 1),
        ;
    }
}

/// The fixed-point square root: `isqrt(x * SCALE)`, so that the result is
/// again a scalar in `SCALE` ticks. Meaningful for `x >= 0` only.
pub open spec fn fsqrt(x: int) -> int {
    isqrt(x * SCALE)
}

pub fn fx_sqrt(x: i64) -> (r: i64)
    requires
        0 <= x <= 0x6000_0000_0000_0000,
    ensures
        r == fsqrt(x as int),
        0 <= r,
        r * r <= x * SCALE,
        x * SCALE < (r + 1) * (r + 1),
{
    proof {
        assert(0 <= (x as int) * SCALE <= 0x6_0000_0000_0000_0000_0000) by (nonlinear_arith)
            requires
                0 <= x <= 0x6000_0000_0000_0000,
        ;
    }
    let n: u128 = (x as u128) * (SCALE as u128);
    let mut lo: u128 = 0;
    let mut hi: u128 = 0x300_0000_0000;
    proof {
        assert((0x300_0000_0000 as int) * 0x300_0000_0000 > 0x6_0000_0000_0000_0000_0000)
            by (nonlinear_arith);
    }
    while lo + 1 < hi
        invariant
            0 <= lo < hi <= 0x300_0000_0000,
            n == (x as int) * SCALE,
            n <= 0x6_0000_0000_0000_0000_0000,
            lo * lo <= n,
            n < hi * hi,
        decreases hi - lo,
    {
        let mid = lo + (hi - lo) / 2;
        proof {
            assert(lo < mid < hi);
            assert(mid * mid <= 0x4_0000_0000_0000_0000_0000_0000) by (nonlinear_arith)
                requires
                    0 <= mid <= 0x300_0000_0000,
            ;
        }
        if mid * mid <= n {
            lo = mid;
        } else {
            hi = mid;
        }
    }
    proof {
        assert(hi == lo + 1);
        lemma_isqrt_unique((x as int) * SCALE, lo as int);
    }
    lo as i64
}

/// The fixed-point product is symmetric.
pub proof fn lemma_fmul_comm(a: int, b: int)
    ensures
        fmul(a, b) == fmul(b, a),
{
    assert(a * b == b * a) by (nonlinear_arith);
}

/// The fixed-point product of non-negative scalars is non-negative.
pub proof fn lemma_fmul_nonneg(a: int, b: int)
    requires
        0 <= a,
        0 <= b,
    ensures
        0 <= fmul(a, b),
{
    assert(0 <= a * b) by (nonlinear_arith)
        requires
            0 <= a && 0 <= b,
    ;
    vstd::arithmetic::div_mod::lemma_div_pos_is_pos(a * b, SCALE as int);
}

/// A product of scalars within `m` stays within `m * m / SCALE`.
pub proof fn lemma_fmul_le(a: int, b: int, m: int)
    requires
        iabs(a) <= m,
        iabs(b) <= m,
        0 <= m,
    ensures
        iabs(fmul(a, b)) <= (m * m) / (SCALE as int),
{
    assert(iabs(a * b) <= m * m) by (nonlinear_arith)
        requires
            iabs(a) <= m && iabs(b) <= m && 0 <= m,
            (iabs(a) == a || iabs(a) == -a) && iabs(a) >= 0,
            (iabs(b) == b || iabs(b) == -b) && iabs(b) >= 0,
            (iabs(a * b) == a * b || iabs(a * b) == -(a * b)) && iabs(a * b) >= 0,
    ;
    lemma_descale_abs(a * b);
    lemma_descale_monotone(iabs(a * b), m * m);
}

/// A product of scalars within `aa` and `bb` stays within `aa * bb / SCALE`.
pub proof fn lemma_fmul_le2(a: int, b: int, aa: int, bb: int)
    requires
        iabs(a) <= aa,
        iabs(b) <= bb,
        0 <= aa,
        0 <= bb,
    ensures
        iabs(fmul(a, b)) <= (aa * bb) / (SCALE as int),
{
    assert(iabs(a * b) <= aa * bb) by (nonlinear_arith)
        requires
            iabs(a) <= aa && iabs(b) <= bb && 0 <= aa && 0 <= bb,
            (iabs(a) == a || iabs(a) == -a) && iabs(a) >= 0,
            (iabs(b) == b || iabs(b) == -b) && iabs(b) >= 0,
            (iabs(a * b) == a * b || iabs(a * b) == -(a * b)) && iabs(a * b) >= 0,
    ;
    lemma_descale_abs(a * b);
    lemma_descale_monotone(iabs(a * b), aa * bb);
    assert(0 <= aa * bb) by (nonlinear_arith)
        requires
            0 <= aa && 0 <= bb,
    ;
}

/// The fixed-point product, for factors whose scaled product is known to fit:
/// wider than `fx_mul`, at the price of a caller-proved fit.
pub fn fx_mul_wide(a: i64, b: i64) -> (c: i64)
    requires
        iabs(fmul(a as int, b as int)) <= i64::MAX,
    ensures
        c == fmul(a as int, b as int),
{
    let p: i128 = (a as i128) * (b as i128);
    if p >= 0 {
        let q: u128 = (p as u128) / (SCALE as u128);
        proof {
            vstd::arithmetic::div_mod::lemma_div_pos_is_pos(p as int, SCALE as int);
        }
        q as i64
    } else {
        let m: u128 = (-p) as u128;
        let q: u128 = m / (SCALE as u128);
        proof {
            vstd::arithmetic::div_mod::lemma_div_pos_is_pos(-(p as int), SCALE as int);
        }
        -(q as i64)
    }
}

/// A mathematical integer that fits in an `i64`.
pub open spec fn fits64(x: int) -> bool {
    i64::MIN <= x <= i64::MAX
}

/// Rounding toward zero commutes with the absolute value.
pub proof fn lemma_descale_abs(p: int)
    ensures
        iabs(descale(p)) == descale(iabs(p)),
{
    if p >= 0 {
        vstd::arithmetic::div_mod::lemma_div_pos_is_pos(p, SCALE as int);
    } else {
        vstd::arithmetic::div_mod::lemma_div_pos_is_pos(-p, SCALE as int);
    }
}

/// Scaling by a factor of magnitude at most one (`SCALE` ticks) never
/// increases a scalar's magnitude.
pub proof fn lemma_fmul_abs_le(v: int, f: int)
    requires
        iabs(f) <= SCALE,
    ensures
        iabs(fmul(v, f)) <= iabs(v),
{
    assert(iabs(v * f) <= iabs(v) * SCALE) by (nonlinear_arith)
        requires
            iabs(f) <= SCALE,
            (iabs(v) == v || iabs(v) == -v) && iabs(v) >= 0,
            (iabs(f) == f || iabs(f) == -f) && iabs(f) >= 0,
            (iabs(v * f) == v * f || iabs(v * f) == -(v * f)) && iabs(v * f) >= 0,
    ;
    lemma_descale_abs(v * f);
    lemma_descale_monotone(iabs(v * f), iabs(v) * SCALE);
    lemma_descale_scale(iabs(v));
}

/// The fixed-point square is monotone in the absolute value.
pub proof fn lemma_fmul_sq_monotone(a: int, b: int)
    requires
        iabs(a) <= iabs(b),
    ensures
        fmul(a, a) <= fmul(b, b),
{
    assert(a * a <= b * b) by (nonlinear_arith)
        requires
            (iabs(a) == a || iabs(a) == -a) && iabs(a) >= 0,
            (iabs(b) == b || iabs(b) == -b) && iabs(b) >= 0,
            iabs(a) <= iabs(b),
    ;
    lemma_descale_monotone(a * a, b * b);
}

/// Rounding toward zero never reorders: `descale` is monotone.
pub proof fn lemma_descale_monotone(p: int, q: int)
    requires
        p <= q,
    ensures
        descale(p) <= descale(q),
{
    if 0 <= p {
        vstd::arithmetic::div_mod::lemma_div_is_ordered(p, q, SCALE as int);
    } else if q < 0 {
        vstd::arithmetic::div_mod::lemma_div_is_ordered(-q, -p, SCALE as int);
    } else {
        vstd::arithmetic::div_mod::lemma_div_pos_is_pos(-p, SCALE as int);
        vstd::arithmetic::div_mod::lemma_div_pos_is_pos(q, SCALE as int);
    }
}

/// A whole multiple of `SCALE` descales exactly.
pub proof fn lemma_descale_scale(a: int)
    ensures
        descale(a * SCALE) == a,
{
    if a >= 0 {
        vstd::arithmetic::div_mod::lemma_div_by_multiple(a, SCALE as int);
    } else {
        assert(-(a * SCALE) == (-a) * SCALE) by (nonlinear_arith);
        vstd::arithmetic::div_mod::lemma_div_by_multiple(-a, SCALE as int);
    }
}

/// Scaling a non-negative value by a factor in `[0, 1]` (in ticks: `[0,
/// SCALE]`) keeps it non-negative and does not increase it.
pub proof fn lemma_fmul_unit_range(a: int, b: int)
    requires
        0 <= a,
        0 <= b <= SCALE,
    ensures
        0 <= fmul(a, b) <= a,
{
    assert(0 <= a * b <= a * SCALE) by (nonlinear_arith)
        requires
            0 <= a,
            0 <= b <= SCALE,
    ;
    lemma_descale_monotone(0, a * b);
    lemma_descale_monotone(a * b, a * SCALE);
    lemma_descale_scale(a);
}

/// `isqrt` satisfies its own characterization on non-negative input.
pub proof fn lemma_isqrt_props(n: int)
    requires
        n >= 0,
    ensures
        0 <= isqrt(n),
        isqrt(n) * isqrt(n) <= n,
        n < (isqrt(n) + 1) * (isqrt(n) + 1),
{
    let r = lemma_isqrt_exists(n);
    lemma_isqrt_unique(n, r);
}

/// The square root of a factor in `[0, 1]` is again in `[0, 1]`.
pub proof fn lemma_fsqrt_unit_range(x: int)
    requires
        0 <= x <= SCALE,
    ensures
        0 <= fsqrt(x) <= SCALE,
{
    lemma_isqrt_props(x * SCALE);
    let r = fsqrt(x);
    if r > SCALE {
        assert((SCALE + 1) as int * (SCALE + 1) as int <= r * r) by (nonlinear_arith)
            requires
                r >= SCALE + 1,
        ;
    }
}

/// The whole-exponent fixed-point power: `SCALE` (one) with `b` multiplied
/// into it `n` times, left to right.
pub open spec fn fpow_whole(b: int, n: nat) -> int
    decreases n,
{
    if n == 0 {
        SCALE as int
    } else {
        fmul(fpow_whole(b, (n - 1) as nat), b)
    }
}

/// `b` under `j` successive fixed-point square roots: the factor contributed
/// by the fraction bit of weight `2^-j`.
pub open spec fn sqrt_iter(b: int, j: nat) -> int
    decreases j,
{
    if j == 0 {
        b
    } else {
        fsqrt(sqrt_iter(b, (j - 1) as nat))
    }
}

/// Whether the bit of weight `pow2(k)` is set in `frac`.
pub open spec fn frac_bit(frac: int, k: nat) -> bool {
    (frac / (vstd::arithmetic::power2::pow2(k) as int)) % 2 == 1
}

/// The factors of the first `j` fraction bits of the exponent, most
/// significant bit first, accumulated left to right: the bit of weight
/// `pow2(20 - i)` ticks (that is, `2^-i` units) contributes `sqrt_iter(b, i)`.
pub open spec fn fpow_frac(b: int, frac: int, j: nat) -> int
    decreases j,
{
    if j == 0 {
        SCALE as int
    } else if frac_bit(frac, (20 - j) as nat) {
        fmul(fpow_frac(b, frac, (j - 1) as nat), sqrt_iter(b, j))
    } else {
        fpow_frac(b, frac, (j - 1) as nat)
    }
}

/// The fixed-point power `b` to the exponent `e / SCALE`, for a base in
/// `[0, 1]`: the product of the whole-exponent part and the 20 fraction-bit
/// factors. Meaningful for `0 <= b <= SCALE` and `e >= 0`.
pub open spec fn fpow(b: int, e: int) -> int {
    fmul(fpow_whole(b, (e / (SCALE as int)) as nat), fpow_frac(b, e % (SCALE as int), 20))
}

/// Each fraction-bit factor stays in `[0, 1]`.
pub proof fn lemma_sqrt_iter_unit_range(b: int, j: nat)
    requires
        0 <= b <= SCALE,
    ensures
        0 <= sqrt_iter(b, j) <= SCALE,
    decreases j,
{
    if j > 0 {
        lemma_sqrt_iter_unit_range(b, (j - 1) as nat);
        lemma_fsqrt_unit_range(sqrt_iter(b, (j - 1) as nat));
    }
}

/// The accumulated fraction factors stay in `[0, 1]`.
pub proof fn lemma_fpow_frac_unit_range(b: int, frac: int, j: nat)
    requires
        0 <= b <= SCALE,
    ensures
        0 <= fpow_frac(b, frac, j) <= SCALE,
    decreases j,
{
    if j > 0 {
        lemma_fpow_frac_unit_range(b, frac, (j - 1) as nat);
        if frac_bit(frac, (20 - j) as nat) {
            lemma_sqrt_iter_unit_range(b, j);
            lemma_fmul_unit_range(fpow_frac(b, frac, (j - 1) as nat), sqrt_iter(b, j));
        }
    }
}

/// The whole-exponent part stays in `[0, 1]`.
pub proof fn lemma_fpow_whole_unit_range(b: int, n: nat)
    requires
        0 <= b <= SCALE,
    ensures
        0 <= fpow_whole(b, n) <= SCALE,
    decreases n,
{
    if n > 0 {
        lemma_fpow_whole_unit_range(b, (n - 1) as nat);
        lemma_fmul_unit_range(fpow_whole(b, (n - 1) as nat), b);
    }
}

/// A power of a base in `[0, 1]` is in `[0, 1]`.
pub proof fn lemma_fpow_unit_range(b: int, e: int)
    requires
        0 <= b <= SCALE,
    ensures
        0 <= fpow(b, e) <= SCALE,
{
    lemma_fpow_whole_unit_range(b, (e / (SCALE as int)) as nat);
    lemma_fpow_frac_unit_range(b, e % (SCALE as int), 20);
    lemma_fmul_unit_range(
        fpow_whole(b, (e / (SCALE as int)) as nat),
        fpow_frac(b, e % (SCALE as int), 20),
    );
}

pub fn fx_pow(b: i64, e: i64) -> (r: i64)
    requires
        0 <= b <= SCALE,
        0 <= e,
        bounded(e as int),
    ensures
        r == fpow(b as int, e as int),
        0 <= r <= SCALE,
{
    let eu: u64 = e as u64;
    let whole: u64 = eu / (SCALE as u64);
    let frac: u64 = eu % (SCALE as u64);
    let mut acc: i64 = SCALE;
    let mut i: u64 = 0;
    while i < whole
        invariant
            0 <= b <= SCALE,
            i <= whole,
            0 <= acc <= SCALE,
            acc == fpow_whole(b as int, i as nat),
        decreases whole - i,
    {
        proof {
            lemma_fmul_unit_range(acc as int, b as int);
        }
        acc = fx_mul(acc, b);
        i = i + 1;
    }
    let mut fr: i64 = SCALE;
    let mut cur: i64 = b;
    let mut w: u64 = 524288;
    let mut j: u64 = 1;
    proof {
        vstd::arithmetic::power2::lemma2_to64();
    }
    while j <= 20
        invariant
            0 <= b <= SCALE,
            1 <= j <= 21,
            0 <= fr <= SCALE,
            0 <= cur <= SCALE,
            frac == (e as int) % (SCALE as int),
            frac < SCALE,
            fr == fpow_frac(b as int, frac as int, (j - 1) as nat),
            cur == sqrt_iter(b as int, (j - 1) as nat),
            j <= 20 ==> w == vstd::arithmetic::power2::pow2((20 - j) as nat),
        decreases 21 - j,
    {
        proof {
            lemma_fsqrt_unit_range(cur as int);
            vstd::arithmetic::power2::lemma_pow2_pos((20 - j) as nat);
        }
        cur = fx_sqrt(cur);
        if (frac / w) % 2 == 1 {
            proof {
                lemma_fmul_unit_range(fr as int, cur as int);
            }
            fr = fx_mul(fr, cur);
        }
        proof {
            if j < 20 {
                vstd::arithmetic::power2::lemma_pow2_unfold((20 - j) as nat);
            }
        }
        w = w / 2;
        j = j + 1;
    }
    proof {
        lemma_fmul_unit_range(acc as int, fr as int);
        lemma_fmul_unit_range(fr as int, acc as int);
        assert((acc as int) * (fr as int) == (fr as int) * (acc as int)) by (nonlinear_arith);
    }
    fx_mul(acc, fr)
}

} // verus!
