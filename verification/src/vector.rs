//! Three-component fixed-point vectors.

use vstd::prelude::*;
use crate::fixed::{
    abs_of, floor_sqrt, fx_add, fx_add_spec, fx_mul, fx_mul_spec, fx_neg, fx_neg_spec, fx_ratio,
    fx_ratio_spec, fx_sub, fx_sub_spec, is_floor_sqrt, isqrt, lemma_floor_sqrt_exists,
    lemma_floor_sqrt_unique, lemma_fx_mul_bound, lemma_fx_ratio_bound, magnitude, sat, SCALE,
};

verus! {

/// A vector of three fixed-point components.
#[derive(Clone, Copy, Debug, PartialEq, Eq, Structural)]
pub struct Vec3 {
    pub x: i64,
    pub y: i64,
    pub z: i64,
}

/// The zero vector.
pub open spec fn v_zero() -> Vec3 {
    Vec3 { x: 0, y: 0, z: 0 }
}

/// The sum, component by component.
pub open spec fn v_add(a: Vec3, b: Vec3) -> Vec3 {
    Vec3 { x: fx_add_spec(a.x, b.x), y: fx_add_spec(a.y, b.y), z: fx_add_spec(a.z, b.z) }
}

/// The difference, component by component.
pub open spec fn v_sub(a: Vec3, b: Vec3) -> Vec3 {
    Vec3 { x: fx_sub_spec(a.x, b.x), y: fx_sub_spec(a.y, b.y), z: fx_sub_spec(a.z, b.z) }
}

/// The negation, component by component.
pub open spec fn v_neg(a: Vec3) -> Vec3 {
    Vec3 { x: fx_neg_spec(a.x), y: fx_neg_spec(a.y), z: fx_neg_spec(a.z) }
}

/// Every component multiplied by the fixed-point scalar `s`.
pub open spec fn v_scale(a: Vec3, s: i64) -> Vec3 {
    Vec3 { x: fx_mul_spec(a.x, s), y: fx_mul_spec(a.y, s), z: fx_mul_spec(a.z, s) }
}

/// The dot product.
pub open spec fn v_dot(a: Vec3, b: Vec3) -> i64 {
    fx_add_spec(fx_add_spec(fx_mul_spec(a.x, b.x), fx_mul_spec(a.y, b.y)), fx_mul_spec(a.z, b.z))
}

/// The cross product.
pub open spec fn v_cross(a: Vec3, b: Vec3) -> Vec3 {
    Vec3 {
        x: fx_sub_spec(fx_mul_spec(a.y, b.z), fx_mul_spec(a.z, b.y)),
        y: fx_sub_spec(fx_mul_spec(a.z, b.x), fx_mul_spec(a.x, b.z)),
        z: fx_sub_spec(fx_mul_spec(a.x, b.y), fx_mul_spec(a.y, b.x)),
    }
}

/// The Euclidean norm in millionths, rounded down, before saturation.
pub open spec fn v_norm(a: Vec3) -> nat {
    floor_sqrt((a.x * a.x + a.y * a.y + a.z * a.z) as nat)
}

/// The Euclidean norm, saturated.
pub open spec fn v_length(a: Vec3) -> i64 {
    sat(v_norm(a) as int)
}

/// The dot product of the vector with itself.
pub open spec fn v_length_squared(a: Vec3) -> i64 {
    v_dot(a, a)
}

/// The vector divided by its norm, or zero where the norm rounds to zero.
pub open spec fn v_unit(a: Vec3) -> Vec3 {
    if v_norm(a) == 0 {
        v_zero()
    } else {
        Vec3 {
            x: fx_ratio_spec(a.x, v_norm(a) as int),
            y: fx_ratio_spec(a.y, v_norm(a) as int),
            z: fx_ratio_spec(a.z, v_norm(a) as int),
        }
    }
}

/// The vector itself where it is no longer than `max`, else the vector of
/// length `max` in its direction.
pub open spec fn v_limit(a: Vec3, max: i64) -> Vec3 {
    if v_length(a) > max {
        v_scale(v_unit(a), max)
    } else {
        a
    }
}

/// The sum of the squares of the components.
pub open spec fn v_square_sum(a: Vec3) -> int {
    a.x * a.x + a.y * a.y + a.z * a.z
}

/// The zero vector has norm zero, and is its own direction.
pub proof fn lemma_zero_vector()
    ensures
        v_norm(v_zero()) == 0,
        v_length(v_zero()) == 0,
        v_unit(v_zero()) == v_zero(),
{
    assert(is_floor_sqrt(0, 0)) by (nonlinear_arith);
    lemma_floor_sqrt_exists(0);
    lemma_floor_sqrt_unique(0, 0, floor_sqrt(0));
}

/// Scaling by zero gives the zero vector.
pub proof fn lemma_scale_by_zero(a: Vec3)
    ensures
        v_scale(a, 0) == v_zero(),
{
    assert(a.x * 0 == 0 && a.y * 0 == 0 && a.z * 0 == 0) by (nonlinear_arith);
}

/// A component of a direction scaled to the length `s`, times the norm, is
/// no larger in magnitude than the component times `s`, and keeps its sign.
pub proof fn lemma_rescaled_component(c: i64, norm: int, s: i64)
    requires
        norm > 0,
        s >= 0,
    ensures
        abs_of(fx_mul_spec(fx_ratio_spec(c, norm), s) as int) * norm <= abs_of(c as int) * s,
        c >= 0 ==> fx_mul_spec(fx_ratio_spec(c, norm), s) >= 0,
        c <= 0 ==> fx_mul_spec(fx_ratio_spec(c, norm), s) <= 0,
{
    let u = fx_ratio_spec(c, norm);
    let w = fx_mul_spec(u, s);
    lemma_fx_ratio_bound(c, norm);
    lemma_fx_mul_bound(u, s);
    let aw = abs_of(w as int);
    let au = abs_of(u as int);
    let ac = abs_of(c as int);
    let k = SCALE as int;
    assert(aw * norm <= ac * s) by (nonlinear_arith)
        requires
            aw * k <= au * s,
            au * norm <= ac * k,
            k > 0,
            norm > 0,
            s >= 0,
            aw >= 0,
            au >= 0,
            ac >= 0,
    ;
}

/// A vector rescaled to a length `s` below its norm is no longer than `s`.
pub proof fn lemma_rescaled_length(a: Vec3, s: i64)
    requires
        0 <= s < v_norm(a),
    ensures
        v_length(v_scale(v_unit(a), s)) <= s,
{
    let norm = v_norm(a) as int;
    let w = v_scale(v_unit(a), s);
    let s2 = v_square_sum(a);
    let w2 = v_square_sum(w);
    assert(s2 >= 0 && w2 >= 0) by (nonlinear_arith)
        requires
            s2 == a.x * a.x + a.y * a.y + a.z * a.z,
            w2 == w.x * w.x + w.y * w.y + w.z * w.z,
    ;
    lemma_floor_sqrt_exists(s2 as nat);
    lemma_floor_sqrt_exists(w2 as nat);
    lemma_rescaled_component(a.x, norm, s);
    lemma_rescaled_component(a.y, norm, s);
    lemma_rescaled_component(a.z, norm, s);
    lemma_square_bound(w.x as int, a.x as int, norm, s as int);
    lemma_square_bound(w.y as int, a.y as int, norm, s as int);
    lemma_square_bound(w.z as int, a.z as int, norm, s as int);
    let nn = norm * norm;
    let ss = s * s;
    assert(w2 * nn <= s2 * ss) by (nonlinear_arith)
        requires
            w2 == w.x * w.x + w.y * w.y + w.z * w.z,
            s2 == a.x * a.x + a.y * a.y + a.z * a.z,
            (w.x * w.x) * nn <= (a.x * a.x) * ss,
            (w.y * w.y) * nn <= (a.y * a.y) * ss,
            (w.z * w.z) * nn <= (a.z * a.z) * ss,
    ;
    let top = (norm + 1) * s;
    let cap = norm * (s + 1);
    assert(0 <= top <= cap) by (nonlinear_arith)
        requires
            top == (norm + 1) * s,
            cap == norm * (s + 1),
            0 <= s < norm,
    ;
    assert(top * top <= cap * cap) by (nonlinear_arith)
        requires
            0 <= top <= cap,
    ;
    assert(s2 * ss <= top * top) by (nonlinear_arith)
        requires
            s2 <= (norm + 1) * (norm + 1),
            ss == s * s,
            top == (norm + 1) * s,
            s2 >= 0,
    ;
    assert(cap * cap == nn * ((s + 1) * (s + 1))) by (nonlinear_arith)
        requires
            cap == norm * (s + 1),
            nn == norm * norm,
    ;
    if s == 0 {
        assert(ss == 0) by (nonlinear_arith)
            requires
                ss == s * s,
                s == 0,
        ;
        assert(w2 * nn <= 0) by (nonlinear_arith)
            requires
                w2 * nn <= s2 * ss,
                ss == 0,
        ;
        assert(w2 <= 0) by (nonlinear_arith)
            requires
                w2 * nn <= 0,
                nn == norm * norm,
                norm > 0,
        ;
    } else {
        assert(s2 * ss < top * top) by (nonlinear_arith)
            requires
                s2 < (norm + 1) * (norm + 1),
                ss == s * s,
                top == (norm + 1) * s,
                s > 0,
                s2 >= 0,
        ;
    }
    assert(w2 < (s + 1) * (s + 1)) by (nonlinear_arith)
        requires
            s == 0 ==> w2 <= 0,
            s != 0 ==> w2 * nn < nn * ((s + 1) * (s + 1)),
            nn == norm * norm,
            norm > 0,
            s >= 0,
    ;
    let r = v_norm(w) as int;
    assert(r <= s) by (nonlinear_arith)
        requires
            r * r <= w2,
            w2 < (s + 1) * (s + 1),
            r >= 0,
            s >= 0,
    ;
}

/// Limiting bounds the length: a vector limited to a length that is not
/// negative is no longer than that.
pub proof fn lemma_limit_bounds(a: Vec3, max: i64)
    requires
        max >= 0,
    ensures
        v_length(v_limit(a, max)) <= max,
{
    if v_length(a) > max {
        lemma_rescaled_length(a, max);
    }
}

/// From `|w|·n ≤ |a|·s` follows `w²·n² ≤ a²·s²`.
proof fn lemma_square_bound(w: int, a: int, n: int, s: int)
    requires
        abs_of(w) * n <= abs_of(a) * s,
        n >= 0,
        s >= 0,
    ensures
        (w * w) * (n * n) <= (a * a) * (s * s),
{
    let p = abs_of(w) * n;
    let q = abs_of(a) * s;
    assert(0 <= p) by (nonlinear_arith)
        requires
            p == abs_of(w) * n,
            abs_of(w) >= 0,
            n >= 0,
    ;
    assert(p * p <= q * q) by (nonlinear_arith)
        requires
            0 <= p <= q,
    ;
    assert(p * p == (w * w) * (n * n)) by (nonlinear_arith)
        requires
            p == abs_of(w) * n,
            abs_of(w) == w || abs_of(w) == -w,
    ;
    assert(q * q == (a * a) * (s * s)) by (nonlinear_arith)
        requires
            q == abs_of(a) * s,
            abs_of(a) == a || abs_of(a) == -a,
    ;
}

impl Vec3 {
    /// The vector with the given components.
    pub fn new(x: i64, y: i64, z: i64) -> (r: Vec3)
        ensures
            r == (Vec3 { x, y, z }),
    {
        Vec3 { x, y, z }
    }

    /// The zero vector.
    pub fn zero() -> (r: Vec3)
        ensures
            r == v_zero(),
    {
        Vec3 { x: 0, y: 0, z: 0 }
    }

    /// The sum with `other`.
    pub fn plus(self, other: Vec3) -> (r: Vec3)
        ensures
            r == v_add(self, other),
    {
        Vec3 { x: fx_add(self.x, other.x), y: fx_add(self.y, other.y), z: fx_add(self.z, other.z) }
    }

    /// The difference from `other`.
    pub fn minus(self, other: Vec3) -> (r: Vec3)
        ensures
            r == v_sub(self, other),
    {
        Vec3 { x: fx_sub(self.x, other.x), y: fx_sub(self.y, other.y), z: fx_sub(self.z, other.z) }
    }

    /// The opposite vector.
    pub fn negated(self) -> (r: Vec3)
        ensures
            r == v_neg(self),
    {
        Vec3 { x: fx_neg(self.x), y: fx_neg(self.y), z: fx_neg(self.z) }
    }

    /// The vector times the fixed-point scalar `s`.
    pub fn scaled(self, s: i64) -> (r: Vec3)
        ensures
            r == v_scale(self, s),
    {
        Vec3 { x: fx_mul(self.x, s), y: fx_mul(self.y, s), z: fx_mul(self.z, s) }
    }

    /// The dot product with `other`.
    pub fn dot(self, other: Vec3) -> (r: i64)
        ensures
            r == v_dot(self, other),
    {
        fx_add(
            fx_add(fx_mul(self.x, other.x), fx_mul(self.y, other.y)),
            fx_mul(self.z, other.z),
        )
    }

    /// The cross product with `other`.
    pub fn cross(self, other: Vec3) -> (r: Vec3)
        ensures
            r == v_cross(self, other),
    {
        Vec3 {
            x: fx_sub(fx_mul(self.y, other.z), fx_mul(self.z, other.y)),
            y: fx_sub(fx_mul(self.z, other.x), fx_mul(self.x, other.z)),
            z: fx_sub(fx_mul(self.x, other.y), fx_mul(self.y, other.x)),
        }
    }

    /// The norm in millionths, rounded down, before saturation.
    pub fn norm(self) -> (r: u128)
        ensures
            r == v_norm(self),
            r < 0x1_0000_0000_0000_0000,
    {
        let ax: u128 = magnitude(self.x);
        let ay: u128 = magnitude(self.y);
        let az: u128 = magnitude(self.z);
        assert(ax * ax == self.x * self.x && ax * ax <= 0x4000_0000_0000_0000_0000_0000_0000_0000)
            by (nonlinear_arith)
            requires
                ax == self.x || ax == -self.x,
                0 <= ax <= 0x8000_0000_0000_0000,
        ;
        assert(ay * ay == self.y * self.y && ay * ay <= 0x4000_0000_0000_0000_0000_0000_0000_0000)
            by (nonlinear_arith)
            requires
                ay == self.y || ay == -self.y,
                0 <= ay <= 0x8000_0000_0000_0000,
        ;
        assert(az * az == self.z * self.z && az * az <= 0x4000_0000_0000_0000_0000_0000_0000_0000)
            by (nonlinear_arith)
            requires
                az == self.z || az == -self.z,
                0 <= az <= 0x8000_0000_0000_0000,
        ;
        isqrt(ax * ax + ay * ay + az * az)
    }

    /// The Euclidean norm, saturated.
    pub fn length(self) -> (r: i64)
        ensures
            r == v_length(self),
    {
        let n: u128 = self.norm();
        if n > i64::MAX as u128 {
            i64::MAX
        } else {
            n as i64
        }
    }

    /// The dot product of the vector with itself.
    pub fn length_squared(self) -> (r: i64)
        ensures
            r == v_length_squared(self),
    {
        self.dot(self)
    }

    /// The vector divided by its norm, or zero where the norm rounds to zero.
    pub fn normalized_or_zero(self) -> (r: Vec3)
        ensures
            r == v_unit(self),
    {
        let n: u128 = self.norm();
        if n == 0 {
            Vec3::zero()
        } else {
            Vec3 { x: fx_ratio(self.x, n), y: fx_ratio(self.y, n), z: fx_ratio(self.z, n) }
        }
    }

    /// The vector itself where it is no longer than `max`, else the vector of
    /// length `max` in its direction.
    pub fn limit_length(self, max: i64) -> (r: Vec3)
        ensures
            r == v_limit(self, max),
    {
        if self.length() > max {
            self.normalized_or_zero().scaled(max)
        } else {
            self
        }
    }
}

} // verus!
