//! Saturating fixed-point scalar arithmetic.
//!
//! A value `v: i64` stands for the real number `v / FP_ONE`. Additions,
//! subtractions, multiplications and divisions saturate at the `i64` range,
//! and division by zero yields the saturated extreme of the numerator's
//! sign, so every operation is total. Each executable operation is pinned
//! to an exact spec-level mirror over `int`.

use vstd::prelude::*;

verus! {

/// Fixed-point steps per unit: the representation of `1.0`.
pub const FP_ONE: i64 = 65536;

/// The fixed-point representation of `0.5`.
pub const FP_HALF: i64 = 32768;

/// The fixed-point representation of `2.0`.
pub const FP_TWO: i64 = 131072;

/// Saturate a mathematical integer into the `i64` range.
pub open spec fn sat_i64(x: int) -> i64 {
    if x > i64::MAX {
        i64::MAX
    } else if x < i64::MIN {
        i64::MIN
    } else {
        x as i64
    }
}

/// Truncating division (round toward zero), the rounding of the executable
/// code, stated over mathematical integers.
pub open spec fn tdiv(a: int, b: int) -> int
    recommends
        b != 0,
{
    let q = vstd::math::abs(a) as int / vstd::math::abs(b) as int;
    if (a < 0) == (b < 0) {
        q
    } else {
        -q
    }
}

/// Spec mirror of saturating fixed-point addition.
pub open spec fn fp_add_spec(a: i64, b: i64) -> i64 {
    sat_i64(a + b)
}

/// Spec mirror of saturating fixed-point subtraction.
pub open spec fn fp_sub_spec(a: i64, b: i64) -> i64 {
    sat_i64(a - b)
}

/// Spec mirror of saturating fixed-point negation.
pub open spec fn fp_neg_spec(a: i64) -> i64 {
    sat_i64(-a as int)
}

/// Spec mirror of saturating fixed-point multiplication.
pub open spec fn fp_mul_spec(a: i64, b: i64) -> i64 {
    sat_i64(tdiv(a as int * b as int, FP_ONE as int))
}

/// Spec mirror of saturating fixed-point division. Division by zero yields
/// the saturated extreme of the numerator's sign, standing in for the
/// infinities of a float implementation.
pub open spec fn fp_div_spec(a: i64, b: i64) -> i64 {
    if b == 0 {
        if a >= 0 {
            i64::MAX
        } else {
            i64::MIN
        }
    } else {
        sat_i64(tdiv(a as int * FP_ONE as int, b as int))
    }
}

/// `r` is the integer square root of `n`.
pub open spec fn is_isqrt(r: int, n: int) -> bool {
    0 <= r && r * r <= n && n < (r + 1) * (r + 1)
}

/// The integer square root of `n` (meaningful for `n >= 0`).
pub open spec fn isqrt(n: int) -> int {
    choose|r: int| is_isqrt(r, n)
}

/// Spec mirror of the fixed-point square root: nonpositive inputs map to
/// zero, so the operation is total.
pub open spec fn fp_sqrt_spec(a: i64) -> i64 {
    if a <= 0 {
        0
    } else {
        sat_i64(isqrt(a as int * FP_ONE as int))
    }
}

/// The fixed-point representation of pi.
pub const FP_PI: i64 = 205887;

/// The fixed-point representation of 180, the degrees in a half turn.
pub const FP_HALF_TURN_DEG: i64 = 11796480;

/// Spec mirror of the degree-to-radian conversion.
pub open spec fn deg_to_rad_spec(d: i64) -> i64 {
    fp_div_spec(fp_mul_spec(d, FP_PI), FP_HALF_TURN_DEG)
}

/// Spec mirror of the truncated sine series.
pub open spec fn fp_sin_spec(x: i64) -> i64 {
    let x2 = fp_mul_spec(x, x);
    let x3 = fp_mul_spec(x2, x);
    let x5 = fp_mul_spec(x3, x2);
    let x7 = fp_mul_spec(x5, x2);
    fp_sub_spec(
        fp_add_spec(
            fp_sub_spec(x, fp_div_spec(x3, fp_from_int_spec(6))),
            fp_div_spec(x5, fp_from_int_spec(120)),
        ),
        fp_div_spec(x7, fp_from_int_spec(5040)),
    )
}

/// Spec mirror of the truncated cosine series.
pub open spec fn fp_cos_spec(x: i64) -> i64 {
    let x2 = fp_mul_spec(x, x);
    let x4 = fp_mul_spec(x2, x2);
    let x6 = fp_mul_spec(x4, x2);
    fp_sub_spec(
        fp_add_spec(
            fp_sub_spec(FP_ONE, fp_div_spec(x2, fp_from_int_spec(2))),
            fp_div_spec(x4, fp_from_int_spec(24)),
        ),
        fp_div_spec(x6, fp_from_int_spec(720)),
    )
}

/// Spec mirror of the tangent: the sine series over the cosine series.
pub open spec fn fp_tan_spec(x: i64) -> i64 {
    fp_div_spec(fp_sin_spec(x), fp_cos_spec(x))
}

/// Truncating division of a nonnegative value by a positive one is
/// nonnegative.
pub proof fn lemma_tdiv_nonneg(x: int, d: int)
    requires
        x >= 0,
        d > 0,
    ensures
        tdiv(x, d) >= 0,
{
    vstd::arithmetic::div_mod::lemma_div_pos_is_pos(x, d);
}

/// Truncating division of a nonpositive value by a positive one is
/// nonpositive.
pub proof fn lemma_tdiv_nonpos(x: int, d: int)
    requires
        x <= 0,
        d > 0,
    ensures
        tdiv(x, d) <= 0,
{
    if x < 0 {
        vstd::arithmetic::div_mod::lemma_div_pos_is_pos(-x, d);
    }
}

/// Truncating division by a positive value is monotone in the numerator.
pub proof fn lemma_tdiv_monotone(x: int, y: int, d: int)
    requires
        x <= y,
        d > 0,
    ensures
        tdiv(x, d) <= tdiv(y, d),
{
    if x >= 0 {
        vstd::arithmetic::div_mod::lemma_div_is_ordered(x, y, d);
    } else if y < 0 {
        vstd::arithmetic::div_mod::lemma_div_is_ordered(-y, -x, d);
    } else {
        lemma_tdiv_nonpos(x, d);
        lemma_tdiv_nonneg(y, d);
    }
}

/// Scaling a truncated quotient back up stays below the numerator.
pub proof fn lemma_tdiv_mul_le(x: int, d: int)
    requires
        x >= 0,
        d > 0,
    ensures
        tdiv(x, d) * d <= x,
{
    vstd::arithmetic::div_mod::lemma_fundamental_div_mod(x, d);
    vstd::arithmetic::div_mod::lemma_mod_division_less_than_divisor(x, d);
    vstd::arithmetic::mul::lemma_mul_is_commutative(tdiv(x, d), d);
}

/// Multiplying by a fixed-point zero gives zero.
pub proof fn lemma_fp_mul_zero(a: i64)
    ensures
        fp_mul_spec(a, 0i64) == 0,
{
    vstd::arithmetic::mul::lemma_mul_by_zero_is_zero(a as int);
}

/// A fixed-point square is nonnegative.
pub proof fn lemma_fp_square_nonneg(a: i64)
    ensures
        fp_mul_spec(a, a) >= 0,
{
    if a >= 0 {
        vstd::arithmetic::mul::lemma_mul_nonnegative(a as int, a as int);
    } else {
        vstd::arithmetic::mul::lemma_mul_cancels_negatives(a as int, a as int);
        vstd::arithmetic::mul::lemma_mul_nonnegative(-a as int, -a as int);
    }
    lemma_tdiv_nonneg(a as int * a as int, FP_ONE as int);
}

/// The fixed-point square root is nonnegative.
pub proof fn lemma_fp_sqrt_nonneg(a: i64)
    ensures
        fp_sqrt_spec(a) >= 0,
{
    if a > 0 {
        lemma_isqrt_exists(a as int * FP_ONE as int);
    }
}

/// Fixed-point division by a nonnegative divisor is monotone in the
/// numerator.
pub proof fn lemma_fp_div_monotone_num(x: i64, y: i64, d: i64)
    requires
        x <= y,
        d >= 0,
    ensures
        fp_div_spec(x, d) <= fp_div_spec(y, d),
{
    if d > 0 {
        vstd::arithmetic::mul::lemma_mul_inequality(x as int, y as int, FP_ONE as int);
        lemma_tdiv_monotone(x as int * FP_ONE as int, y as int * FP_ONE as int, d as int);
    }
}

/// Saturate a 128-bit intermediate result into `i64`.
fn clamp_i128(x: i128) -> (r: i64)
    ensures
        r == sat_i64(x as int),
{
    if x > i64::MAX as i128 {
        i64::MAX
    } else if x < i64::MIN as i128 {
        i64::MIN
    } else {
        x as i64
    }
}

/// Saturating fixed-point addition.
pub fn fp_add(a: i64, b: i64) -> (r: i64)
    ensures
        r == fp_add_spec(a, b),
{
    clamp_i128(a as i128 + b as i128)
}

/// Saturating fixed-point subtraction.
pub fn fp_sub(a: i64, b: i64) -> (r: i64)
    ensures
        r == fp_sub_spec(a, b),
{
    clamp_i128(a as i128 - b as i128)
}

/// Saturating fixed-point negation.
pub fn fp_neg(a: i64) -> (r: i64)
    ensures
        r == fp_neg_spec(a),
{
    clamp_i128(-(a as i128))
}

/// Bring a saturated 128-bit magnitude and sign together into `i64`.
///
/// `p` is the exact 128-bit intermediate; its magnitude stays below
/// `2^126`, so negation cannot overflow.
fn fp_scale_down(p: i128) -> (r: i64)
    requires
        -0x40000000000000000000000000000000 <= p
            <= 0x40000000000000000000000000000000,
    ensures
        r == sat_i64(tdiv(p as int, FP_ONE as int)),
{
    if p >= 0 {
        let m: u128 = p as u128;
        let q: u128 = m / 65536;
        assert(q <= m) by {
            vstd::arithmetic::div_mod::lemma_div_is_ordered_by_denominator(
                m as int,
                1,
                65536,
            );
        }
        clamp_i128(q as i128)
    } else {
        let m: u128 = (-p) as u128;
        let q: u128 = m / 65536;
        assert(q <= m) by {
            vstd::arithmetic::div_mod::lemma_div_is_ordered_by_denominator(
                m as int,
                1,
                65536,
            );
        }
        clamp_i128(-(q as i128))
    }
}

/// Saturating fixed-point multiplication.
pub fn fp_mul(a: i64, b: i64) -> (r: i64)
    ensures
        r == fp_mul_spec(a, b),
{
    proof {
        assert(-0x40000000000000000000000000000000 <= (a as int) * (b as int)
            <= 0x40000000000000000000000000000000) by (nonlinear_arith)
            requires
                -0x8000000000000000 <= a as int <= 0x7fffffffffffffff,
                -0x8000000000000000 <= b as int <= 0x7fffffffffffffff;
    }
    let p: i128 = (a as i128) * (b as i128);
    fp_scale_down(p)
}

/// Saturating fixed-point division; a zero divisor yields the saturated
/// extreme of the numerator's sign.
pub fn fp_div(a: i64, b: i64) -> (r: i64)
    ensures
        r == fp_div_spec(a, b),
{
    if b == 0 {
        if a >= 0 {
            i64::MAX
        } else {
            i64::MIN
        }
    } else {
        let n: i128 = (a as i128) * 65536;
        let nm: u128 = if n >= 0 {
            n as u128
        } else {
            (-n) as u128
        };
        let bm: u128 = if b >= 0 {
            b as u128
        } else {
            (-(b as i128)) as u128
        };
        let q: u128 = nm / bm;
        assert(q <= nm) by {
            vstd::arithmetic::div_mod::lemma_div_is_ordered_by_denominator(
                nm as int,
                1,
                bm as int,
            );
        }
        if (n < 0) != (b < 0) {
            clamp_i128(-(q as i128))
        } else {
            clamp_i128(q as i128)
        }
    }
}

/// Integer square root of a 128-bit value by bisection.
fn isqrt_u128(n: u128) -> (r: u64)
    requires
        n < 0x40000000000000000000000000000000,
    ensures
        is_isqrt(r as int, n as int),
{
    let mut lo: u128 = 0;
    let mut hi: u128 = 0x8000000000000000;
    proof {
        assert((0x8000000000000000 as int) * (0x8000000000000000 as int)
            == 0x40000000000000000000000000000000) by (nonlinear_arith);
    }
    while hi - lo > 1
        invariant
            lo < hi,
            hi <= 0x8000000000000000,
            (lo as int) * (lo as int) <= n as int,
            (n as int) < (hi as int) * (hi as int),
        decreases hi - lo,
    {
        let mid: u128 = lo + (hi - lo) / 2;
        proof {
            assert(lo < mid < hi);
            assert((mid as int) * (mid as int)
                < 0x80000000000000000000000000000000) by (nonlinear_arith)
                requires
                    0 <= mid as int,
                    (mid as int) < 0x8000000000000000;
        }
        if mid * mid <= n {
            lo = mid;
        } else {
            hi = mid;
        }
    }
    lo as u64
}

/// The integer square root exists for every nonnegative integer.
pub proof fn lemma_isqrt_exists(n: int)
    requires
        n >= 0,
    ensures
        is_isqrt(isqrt(n), n),
    decreases n,
{
    if n == 0 {
        assert(is_isqrt(0, 0));
    } else {
        lemma_isqrt_exists(n - 1);
        let r0 = isqrt(n - 1);
        if (r0 + 1) * (r0 + 1) <= n {
            assert(is_isqrt(r0 + 1, n)) by (nonlinear_arith)
                requires
                    is_isqrt(r0, n - 1),
                    (r0 + 1) * (r0 + 1) <= n;
        } else {
            assert(is_isqrt(r0, n));
        }
    }
    let r = choose|r: int| is_isqrt(r, n);
    assert(is_isqrt(r, n));
}

/// The integer square root is unique: any witness is the chosen one.
pub proof fn lemma_isqrt_is(r: int, n: int)
    requires
        is_isqrt(r, n),
    ensures
        isqrt(n) == r,
{
    let c = choose|x: int| is_isqrt(x, n);
    assert(is_isqrt(c, n));
    assert(c == r) by (nonlinear_arith)
        requires
            is_isqrt(c, n),
            is_isqrt(r, n);
}

/// Saturating fixed-point square root; nonpositive inputs map to zero.
pub fn fp_sqrt(a: i64) -> (r: i64)
    ensures
        r == fp_sqrt_spec(a),
{
    if a <= 0 {
        0
    } else {
        let n: u128 = (a as u128) * 65536;
        let s: u64 = isqrt_u128(n);
        proof {
            lemma_isqrt_is(s as int, n as int);
            assert((s as int) < 0x10000000000) by (nonlinear_arith)
                requires
                    0 <= s as int,
                    (s as int) * (s as int) <= n as int,
                    (n as int) < 0x100000000000000000000;
        }
        s as i64
    }
}

/// Spec mirror of embedding an integer as a fixed-point value.
pub open spec fn fp_from_int_spec(n: i64) -> i64 {
    sat_i64(n * FP_ONE as int)
}

/// Spec mirror of the truncated integer part of a fixed-point value.
pub open spec fn fp_to_int_spec(a: i64) -> i64 {
    tdiv(a as int, FP_ONE as int) as i64
}

/// Spec mirror of rounding a fixed-point value to the nearest integer,
/// halves away from zero.
pub open spec fn fp_round_spec(a: i64) -> i64 {
    if a >= 0 {
        sat_i64(tdiv(a + FP_HALF, FP_ONE as int))
    } else {
        sat_i64(tdiv(a - FP_HALF, FP_ONE as int))
    }
}

/// Embed an integer count as a (saturating) fixed-point value.
pub fn fp_from_int(n: i64) -> (r: i64)
    ensures
        r == fp_from_int_spec(n),
{
    clamp_i128((n as i128) * 65536)
}

/// The integer part of a fixed-point value, rounded toward zero.
pub fn fp_to_int(a: i64) -> (r: i64)
    ensures
        r == fp_to_int_spec(a),
{
    let r = fp_scale_down(a as i128);
    proof {
        assert(sat_i64(tdiv(a as int, FP_ONE as int)) == fp_to_int_spec(a));
    }
    r
}

/// Round a fixed-point value to the nearest integer, halves away from
/// zero.
pub fn fp_round(a: i64) -> (r: i64)
    ensures
        r == fp_round_spec(a),
{
    if a >= 0 {
        fp_scale_down(a as i128 + 32768)
    } else {
        fp_scale_down(a as i128 - 32768)
    }
}

/// Degrees to radians.
pub fn deg_to_rad(d: i64) -> (r: i64)
    ensures
        r == deg_to_rad_spec(d),
{
    fp_div(fp_mul(d, FP_PI), FP_HALF_TURN_DEG)
}

/// The sine by a truncated Maclaurin series, adequate for angles within
/// a right angle.
pub fn fp_sin(x: i64) -> (r: i64)
    ensures
        r == fp_sin_spec(x),
{
    let x2 = fp_mul(x, x);
    let x3 = fp_mul(x2, x);
    let x5 = fp_mul(x3, x2);
    let x7 = fp_mul(x5, x2);
    fp_sub(
        fp_add(fp_sub(x, fp_div(x3, fp_from_int(6))), fp_div(x5, fp_from_int(120))),
        fp_div(x7, fp_from_int(5040)),
    )
}

/// The cosine by a truncated Maclaurin series, adequate for angles
/// within a right angle.
pub fn fp_cos(x: i64) -> (r: i64)
    ensures
        r == fp_cos_spec(x),
{
    let x2 = fp_mul(x, x);
    let x4 = fp_mul(x2, x2);
    let x6 = fp_mul(x4, x2);
    fp_sub(
        fp_add(fp_sub(FP_ONE, fp_div(x2, fp_from_int(2))), fp_div(x4, fp_from_int(24))),
        fp_div(x6, fp_from_int(720)),
    )
}

/// The tangent as sine over cosine; saturates near a right angle, where
/// the cosine series reaches zero.
pub fn fp_tan(x: i64) -> (r: i64)
    ensures
        r == fp_tan_spec(x),
{
    fp_div(fp_sin(x), fp_cos(x))
}

/// Spec mirror of the fixed-point absolute value.
pub open spec fn fp_abs_spec(a: i64) -> i64 {
    if a >= 0 {
        a
    } else {
        fp_neg_spec(a)
    }
}

/// Fixed-point absolute value (saturating at the top of the range).
pub fn fp_abs(a: i64) -> (r: i64)
    ensures
        r == fp_abs_spec(a),
{
    if a >= 0 {
        a
    } else {
        fp_neg(a)
    }
}

/// The smaller of two fixed-point values.
pub fn fp_min(a: i64, b: i64) -> (r: i64)
    ensures
        r == if a <= b { a } else { b },
{
    if a <= b {
        a
    } else {
        b
    }
}

} // verus!
