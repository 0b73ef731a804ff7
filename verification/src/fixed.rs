//! Saturating fixed-point arithmetic on `i64` millionths.

use vstd::prelude::*;

verus! {

/// The fixed-point representation of 1.
pub const SCALE: i64 = 1_000_000;

/// A full turn, 2π radians, rounded down to a millionth.
pub const TAU: i64 = 6_283_185;

/// A quarter turn, π/2 radians, rounded down to a millionth.
pub const HALF_PI: i64 = 1_570_796;

/// The value of `i64` closest to `x`.
pub open spec fn sat(x: int) -> i64 {
    if x < i64::MIN as int {
        i64::MIN
    } else if x > i64::MAX as int {
        i64::MAX
    } else {
        x as i64
    }
}

/// Division that rounds toward zero, for a positive divisor.
pub open spec fn trunc_div(n: int, d: int) -> int {
    if n >= 0 {
        n / d
    } else {
        -((-n) / d)
    }
}

/// The sum, saturated.
pub open spec fn fx_add_spec(a: i64, b: i64) -> i64 {
    sat(a + b)
}

/// The difference, saturated.
pub open spec fn fx_sub_spec(a: i64, b: i64) -> i64 {
    sat(a - b)
}

/// The negation, saturated.
pub open spec fn fx_neg_spec(a: i64) -> i64 {
    sat(-a)
}

/// The product of two fixed-point numbers, rounded toward zero.
pub open spec fn fx_mul_spec(a: i64, b: i64) -> i64 {
    sat(trunc_div(a * b, SCALE as int))
}

fn saturate(x: i128) -> (r: i64)
    ensures
        r == sat(x as int),
{
    if x < i64::MIN as i128 {
        i64::MIN
    } else if x > i64::MAX as i128 {
        i64::MAX
    } else {
        x as i64
    }
}

/// Saturating sum.
pub fn fx_add(a: i64, b: i64) -> (r: i64)
    ensures
        r == fx_add_spec(a, b),
{
    saturate(a as i128 + b as i128)
}

/// Saturating difference.
pub fn fx_sub(a: i64, b: i64) -> (r: i64)
    ensures
        r == fx_sub_spec(a, b),
{
    saturate(a as i128 - b as i128)
}

/// Saturating negation.
pub fn fx_neg(a: i64) -> (r: i64)
    ensures
        r == fx_neg_spec(a),
{
    saturate(-(a as i128))
}

/// Fixed-point product, rounded toward zero and saturated.
pub fn fx_mul(a: i64, b: i64) -> (r: i64)
    ensures
        r == fx_mul_spec(a, b),
{
    assert(-0x4000_0000_0000_0000_0000_0000_0000_0000 <= (a as int) * (b as int)
        <= 0x4000_0000_0000_0000_0000_0000_0000_0000) by (nonlinear_arith)
        requires
            -0x8000_0000_0000_0000 <= a as int <= 0x8000_0000_0000_0000,
            -0x8000_0000_0000_0000 <= b as int <= 0x8000_0000_0000_0000,
    ;
    let p: i128 = (a as i128) * (b as i128);
    let q: i128 = p / (SCALE as i128);
    saturate(q)
}


/// `n` divided by a positive `d`, both counted in millionths: the fixed-point
/// quotient, rounded toward zero.
pub open spec fn fx_ratio_spec(n: i64, d: int) -> i64 {
    sat(trunc_div(n * SCALE, d))
}

/// Whether `r` is the integer square root of `n`, rounded down.
pub open spec fn is_floor_sqrt(n: nat, r: nat) -> bool {
    r * r <= n && n < (r + 1) * (r + 1)
}

/// The integer square root of `n`, rounded down.
pub open spec fn floor_sqrt(n: nat) -> nat {
    choose|r: nat| is_floor_sqrt(n, r)
}

/// At most one number is the rounded-down square root of `n`.
pub proof fn lemma_floor_sqrt_unique(n: nat, a: nat, b: nat)
    requires
        is_floor_sqrt(n, a),
        is_floor_sqrt(n, b),
    ensures
        a == b,
{
    if a < b {
        assert((a + 1) * (a + 1) <= b * b) by (nonlinear_arith)
            requires
                a + 1 <= b,
        ;
    } else if b < a {
        assert((b + 1) * (b + 1) <= a * a) by (nonlinear_arith)
            requires
                b + 1 <= a,
        ;
    }
}

/// Every number has a rounded-down square root.
pub proof fn lemma_floor_sqrt_exists(n: nat)
    ensures
        is_floor_sqrt(n, floor_sqrt(n)),
    decreases n,
{
    if n == 0 {
        assert(is_floor_sqrt(0, 0)) by (nonlinear_arith);
    } else {
        lemma_floor_sqrt_exists((n - 1) as nat);
        let r = floor_sqrt((n - 1) as nat);
        if n < (r + 1) * (r + 1) {
            assert(is_floor_sqrt(n, r));
        } else {
            assert((r + 1) * (r + 1) < (r + 2) * (r + 2)) by (nonlinear_arith);
            assert(is_floor_sqrt(n, r + 1));
        }
    }
}

/// The magnitude of an integer.
pub open spec fn abs_of(x: int) -> int {
    if x < 0 {
        -x
    } else {
        x
    }
}

/// Rounding a quotient toward zero never grows its magnitude and never
/// flips its sign.
pub proof fn lemma_trunc_div_bound(n: int, d: int)
    requires
        d > 0,
    ensures
        abs_of(trunc_div(n, d)) * d <= abs_of(n),
        n >= 0 ==> trunc_div(n, d) >= 0,
        n <= 0 ==> trunc_div(n, d) <= 0,
{
    let m = abs_of(n);
    vstd::arithmetic::div_mod::lemma_fundamental_div_mod(m, d);
    vstd::arithmetic::div_mod::lemma_mod_pos_bound(m, d);
    vstd::arithmetic::div_mod::lemma_div_pos_is_pos(m, d);
    assert((m / d) * d <= m) by (nonlinear_arith)
        requires
            m == d * (m / d) + m % d,
            m % d >= 0,
    ;
}

/// A fixed-point product with a zero factor is zero.
pub proof fn lemma_fx_mul_zero(a: i64)
    ensures
        fx_mul_spec(0, a) == 0,
        fx_mul_spec(a, 0) == 0,
{
    assert(0 * a == 0 && a * 0 == 0) by (nonlinear_arith);
}

/// A fixed-point product of two factors of one sign is not negative.
pub proof fn lemma_fx_mul_same_sign(a: i64, b: i64)
    requires
        (a >= 0 && b >= 0) || (a <= 0 && b <= 0),
    ensures
        fx_mul_spec(a, b) >= 0,
{
    assert(a * b >= 0) by (nonlinear_arith)
        requires
            (a >= 0 && b >= 0) || (a <= 0 && b <= 0),
    ;
    lemma_trunc_div_bound(a * b, SCALE as int);
}

/// A fixed-point product with a factor that is not negative is no larger in
/// magnitude than the exact product, and has the sign of the other factor.
pub proof fn lemma_fx_mul_bound(a: i64, b: i64)
    requires
        b >= 0,
    ensures
        abs_of(fx_mul_spec(a, b) as int) * SCALE <= abs_of(a as int) * b,
        a >= 0 ==> fx_mul_spec(a, b) >= 0,
        a <= 0 ==> fx_mul_spec(a, b) <= 0,
{
    let p = a * b;
    lemma_trunc_div_bound(p, SCALE as int);
    assert(abs_of(p) == abs_of(a as int) * b && (a >= 0 ==> p >= 0) && (a <= 0 ==> p <= 0))
        by (nonlinear_arith)
        requires
            p == a * b,
            b >= 0,
    ;
    let t = trunc_div(p, SCALE as int);
    assert(abs_of(sat(t) as int) <= abs_of(t));
    assert(abs_of(sat(t) as int) * SCALE <= abs_of(t) * SCALE) by (nonlinear_arith)
        requires
            abs_of(sat(t) as int) <= abs_of(t),
    ;
}

/// A fixed-point quotient by a positive divisor is no larger in magnitude
/// than the exact quotient, and has the sign of the dividend.
pub proof fn lemma_fx_ratio_bound(n: i64, d: int)
    requires
        d > 0,
    ensures
        abs_of(fx_ratio_spec(n, d) as int) * d <= abs_of(n as int) * SCALE,
        n >= 0 ==> fx_ratio_spec(n, d) >= 0,
        n <= 0 ==> fx_ratio_spec(n, d) <= 0,
{
    let p = n * SCALE;
    lemma_trunc_div_bound(p, d);
    let t = trunc_div(p, d);
    assert(abs_of(sat(t) as int) <= abs_of(t));
    assert(abs_of(sat(t) as int) * d <= abs_of(t) * d) by (nonlinear_arith)
        requires
            abs_of(sat(t) as int) <= abs_of(t),
            d > 0,
    ;
}

/// The value wrapped into the half-open range from `min` to `max`.
pub open spec fn fx_wrap_spec(value: i64, min: i64, max: i64) -> int {
    min + (value - min) % (max - min)
}

/// The value bounded below by `min` and above by `max`.
pub open spec fn fx_clamp_spec(value: i64, min: i64, max: i64) -> i64 {
    if value < min {
        min
    } else if value > max {
        max
    } else {
        value
    }
}

/// The magnitude of `a`.
pub fn magnitude(a: i64) -> (r: u128)
    ensures
        r == if a < 0 { -(a as int) } else { a as int },
        r <= 0x8000_0000_0000_0000,
{
    if a < 0 {
        (-(a as i128)) as u128
    } else {
        a as u128
    }
}

/// Fixed-point quotient of `n` by a positive `d`, rounded toward zero and
/// saturated.
pub fn fx_ratio(n: i64, d: u128) -> (r: i64)
    requires
        0 < d <= 0x1_0000_0000_0000_0000,
    ensures
        r == fx_ratio_spec(n, d as int),
{
    assert(-0x8000_0000_0000_0000 * 1_000_000 <= (n as int) * 1_000_000
        <= 0x8000_0000_0000_0000 * 1_000_000) by (nonlinear_arith)
        requires
            -0x8000_0000_0000_0000 <= n as int <= 0x8000_0000_0000_0000,
    ;
    let p: i128 = (n as i128) * (SCALE as i128);
    let q: i128 = p / (d as i128);
    saturate(q)
}

/// Integer square root, rounded down.
pub fn isqrt(n: u128) -> (r: u128)
    ensures
        r == floor_sqrt(n as nat),
        is_floor_sqrt(n as nat, r as nat),
        r < 0x1_0000_0000_0000_0000,
{
    let mut lo: u128 = 0;
    let mut hi: u128 = 0x1_0000_0000_0000_0000;
    assert(hi * hi > n) by (nonlinear_arith)
        requires
            hi == 0x1_0000_0000_0000_0000,
            n <= 0xFFFF_FFFF_FFFF_FFFF_FFFF_FFFF_FFFF_FFFF,
    ;
    while hi - lo > 1
        invariant
            lo < hi <= 0x1_0000_0000_0000_0000,
            lo * lo <= n < hi * hi,
        decreases hi - lo,
    {
        let mid: u128 = lo + (hi - lo) / 2;
        assert(mid * mid <= 0xFFFF_FFFF_FFFF_FFFF * 0xFFFF_FFFF_FFFF_FFFF) by (nonlinear_arith)
            requires
                0 <= mid <= 0xFFFF_FFFF_FFFF_FFFF,
        ;
        if mid * mid <= n {
            lo = mid;
        } else {
            hi = mid;
        }
    }
    proof {
        assert(is_floor_sqrt(n as nat, lo as nat));
        lemma_floor_sqrt_unique(n as nat, lo as nat, floor_sqrt(n as nat));
    }
    lo
}

/// Wraps `value` into the half-open range from `min` to `max`.
pub fn fx_wrap(value: i64, min: i64, max: i64) -> (r: i64)
    requires
        min < max,
    ensures
        r == fx_wrap_spec(value, min, max),
        min <= r < max,
{
    let range: i128 = max as i128 - min as i128;
    let offset: i128 = value as i128 - min as i128;
    let rem: i128 = offset % range;
    let wrapped: i128 = if rem < 0 { rem + range } else { rem };
    proof {
        let d = range as int;
        let x = offset as int;
        if x >= 0 {
            assert(wrapped == x % d);
        } else {
            let m = (-x) % d;
            let k = (-x) / d;
            vstd::arithmetic::div_mod::lemma_fundamental_div_mod(-x, d);
            if m == 0 {
                assert(x == (-k) * d + 0) by (nonlinear_arith)
                    requires
                        -x == d * k + m,
                        m == 0,
                ;
                vstd::arithmetic::div_mod::lemma_fundamental_div_mod_converse(x, d, -k, 0);
            } else {
                assert(x == (-k - 1) * d + (d - m)) by (nonlinear_arith)
                    requires
                        -x == d * k + m,
                ;
                vstd::arithmetic::div_mod::lemma_fundamental_div_mod_converse(
                    x,
                    d,
                    -k - 1,
                    d - m,
                );
            }
            assert(wrapped == x % d);
        }
    }
    (min as i128 + wrapped) as i64
}

/// Calls `num::clamp` on three `i64`: the result is `min` where the value is
/// below it, `max` where the value is above it, and the value otherwise. The
/// outside function panics in debug builds when `min` exceeds `max`, which the
/// precondition rules out.
#[verifier::external_body]
pub(crate) fn clamp_i64(value: i64, min: i64, max: i64) -> (r: i64)
    requires
        min <= max,
    ensures
        r == fx_clamp_spec(value, min, max),
{
    num::clamp(value, min, max)
}

/// Bounds `value` below by `min` and above by `max`; `None` when the bounds
/// are out of order.
pub fn fx_clamp(value: i64, min: i64, max: i64) -> (r: Option<i64>)
    ensures
        r == if min <= max { Some(fx_clamp_spec(value, min, max)) } else { None::<i64> },
{
    if min <= max {
        Some(clamp_i64(value, min, max))
    } else {
        None
    }
}

} // verus!
