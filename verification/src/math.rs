//! Fixed-point scalars and small vectors.
//!
//! Every quantity of the camera model is an integer number of subunits:
//! [`SCALE`] subunits make one world unit (or one degree, for angles).
//! Division is truncating, as the underlying machine division is; the spec
//! function [`div_t`] pins that meaning down once for the whole crate.

use vstd::prelude::*;

verus! {

/// Subunits per whole unit (or per degree, for angles).
pub const SCALE: i64 = 1000;

/// Truncating division of `a` by a positive divisor `d`: rounds toward zero,
/// as machine division of signed integers does. (The mathematical `/` on
/// `int` rounds toward negative infinity instead.)
pub open spec fn div_t(a: int, d: int) -> int {
    if a >= 0 {
        a / d
    } else {
        -((-a) / d)
    }
}

/// `v` forced into the closed interval `[lo, hi]`.
pub open spec fn clamp_i(v: int, lo: int, hi: int) -> int {
    if v < lo {
        lo
    } else if v > hi {
        hi
    } else {
        v
    }
}

/// Truncating division of an `i64` by a positive divisor.
pub fn div_trunc_i64(a: i64, d: i64) -> (r: i64)
    requires
        1 <= d,
        i64::MIN < a,
    ensures
        r == div_t(a as int, d as int),
{
    if a >= 0 {
        let q: u64 = (a as u64) / (d as u64);
        q as i64
    } else {
        let mag: u64 = (-a) as u64;
        let q: u64 = mag / (d as u64);
        -(q as i64)
    }
}

/// Truncating division of an `i128` by a positive divisor.
pub fn div_trunc_i128(a: i128, d: i128) -> (r: i128)
    requires
        1 <= d,
        i128::MIN < a,
    ensures
        r == div_t(a as int, d as int),
{
    if a >= 0 {
        let q: u128 = (a as u128) / (d as u128);
        q as i128
    } else {
        let mag: u128 = (-a) as u128;
        let q: u128 = mag / (d as u128);
        -(q as i128)
    }
}

/// Square root of `n`, rounded down.
pub open spec fn sqrt_floor(n: nat) -> nat
    decreases n,
{
    if n == 0 {
        0
    } else {
        let r = sqrt_floor((n - 1) as nat);
        if (r + 1) * (r + 1) <= n {
            r + 1
        } else {
            r
        }
    }
}

/// `sqrt_floor(n)` is the largest integer whose square is at most `n`.
pub proof fn lemma_sqrt_floor_bounds(n: nat)
    ensures
        sqrt_floor(n) * sqrt_floor(n) <= n,
        n < (sqrt_floor(n) + 1) * (sqrt_floor(n) + 1),
    decreases n,
{
    if n > 0 {
        lemma_sqrt_floor_bounds((n - 1) as nat);
        let r = sqrt_floor((n - 1) as nat);
        if (r + 1) * (r + 1) <= n {
            assert(sqrt_floor(n) == r + 1);
            assert(n == (r + 1) * (r + 1));
            assert((r + 2) * (r + 2) > (r + 1) * (r + 1)) by (nonlinear_arith);
            assert(n < (sqrt_floor(n) + 1) * (sqrt_floor(n) + 1));
        } else {
            assert(sqrt_floor(n) == r);
        }
    } else {
        assert(sqrt_floor(n) == 0);
        assert(n < (sqrt_floor(n) + 1) * (sqrt_floor(n) + 1)) by (nonlinear_arith)
            requires
                n == 0,
                sqrt_floor(n) == 0,
        ;
    }
}

/// Any integer bracketed the same way as `sqrt_floor(n)` is `sqrt_floor(n)`.
pub proof fn lemma_sqrt_floor_unique(n: nat, s: nat)
    requires
        s * s <= n,
        n < (s + 1) * (s + 1),
    ensures
        s == sqrt_floor(n),
{
    lemma_sqrt_floor_bounds(n);
    let r = sqrt_floor(n);
    if s < r {
        assert((s + 1) * (s + 1) <= r * r) by (nonlinear_arith)
            requires
                s + 1 <= r,
        ;
    } else if r < s {
        assert((r + 1) * (r + 1) <= s * s) by (nonlinear_arith)
            requires
                r + 1 <= s,
        ;
    }
}

/// Integer square root by bisection.
pub fn isqrt_u64(n: u64) -> (r: u64)
    ensures
        r == sqrt_floor(n as nat),
        r * r <= n < (r + 1) * (r + 1),
{
    let mut lo: u64 = 0;
    let mut hi: u64 = 0x1_0000_0000;
    while lo + 1 < hi
        invariant
            lo < hi <= 0x1_0000_0000,
            lo * lo <= n,
            n < hi * hi,
        decreases hi - lo,
    {
        let mid: u64 = lo + (hi - lo) / 2;
        assert(mid * mid <= 0xffff_ffff_ffff_ffff) by (nonlinear_arith)
            requires
                mid < 0x1_0000_0000,
        ;
        if mid * mid <= n {
            lo = mid;
        } else {
            hi = mid;
        }
    }
    proof {
        lemma_sqrt_floor_unique(n as nat, lo as nat);
    }
    lo
}

/// Truncating division respects a symmetric bound on the dividend.
pub proof fn lemma_div_t_bound(a: int, d: int, m: int)
    requires
        0 < d,
        0 <= m,
        -m <= a <= m,
    ensures
        -(m / d) <= div_t(a, d) <= m / d,
{
    if a >= 0 {
        vstd::arithmetic::div_mod::lemma_div_is_ordered(a, m, d);
        vstd::arithmetic::div_mod::lemma_div_pos_is_pos(a, d);
        vstd::arithmetic::div_mod::lemma_div_pos_is_pos(m, d);
    } else {
        vstd::arithmetic::div_mod::lemma_div_is_ordered(-a, m, d);
        vstd::arithmetic::div_mod::lemma_div_pos_is_pos(-a, d);
        vstd::arithmetic::div_mod::lemma_div_pos_is_pos(m, d);
    }
}

/// `v` forced into `[lo, hi]`, narrowing from `i128` to `i64`.
pub fn clamp_i128_to_i64(v: i128, lo: i64, hi: i64) -> (r: i64)
    requires
        lo <= hi,
    ensures
        r == clamp_i(v as int, lo as int, hi as int),
{
    if v < lo as i128 {
        lo
    } else if v > hi as i128 {
        hi
    } else {
        v as i64
    }
}

/// A three-component vector of fixed-point scalars.
#[derive(Clone, Copy, PartialEq, Eq, Structural, Debug)]
pub struct Vec3Fx {
    pub x: i64,
    pub y: i64,
    pub z: i64,
}

/// Every component of `v` lies in `[-b, b]`.
pub open spec fn in_bounds(v: Vec3Fx, b: int) -> bool {
    &&& -b <= v.x <= b
    &&& -b <= v.y <= b
    &&& -b <= v.z <= b
}

/// Dot product, as an unbounded integer.
pub open spec fn dot_spec(a: Vec3Fx, b: Vec3Fx) -> int {
    a.x * b.x + a.y * b.y + a.z * b.z
}

/// Squared Euclidean length, as an unbounded integer.
pub open spec fn norm_sq(v: Vec3Fx) -> int {
    dot_spec(v, v)
}

/// Cross product components, as unbounded integers.
pub open spec fn cross_x(a: Vec3Fx, b: Vec3Fx) -> int {
    a.y * b.z - a.z * b.y
}

pub open spec fn cross_y(a: Vec3Fx, b: Vec3Fx) -> int {
    a.z * b.x - a.x * b.z
}

pub open spec fn cross_z(a: Vec3Fx, b: Vec3Fx) -> int {
    a.x * b.y - a.y * b.x
}

/// Length of `v` rounded down, in subunits.
pub open spec fn len_of(v: Vec3Fx) -> int {
    sqrt_floor(norm_sq(v) as nat) as int
}

/// `v` rescaled to length [`SCALE`] (one unit), rounding each component
/// toward zero.
pub open spec fn normalize_spec(v: Vec3Fx) -> Vec3Fx {
    Vec3Fx {
        x: div_t(v.x * SCALE, len_of(v)) as i64,
        y: div_t(v.y * SCALE, len_of(v)) as i64,
        z: div_t(v.z * SCALE, len_of(v)) as i64,
    }
}

/// Bound within which `dot` accepts its first operand: a normalized vector
/// with room to spare.
pub const UNIT_BOUND: i64 = 2_000;

/// Bound within which `dot` accepts its second operand.
pub const DOT_BOUND: i64 = 1_000_000_000_000_000;

/// Bound within which `cross` and `normalize` accept their operands.
pub const CROSS_BOUND: i64 = 2_000_000_000;

/// Dot product of a near-unit vector with an arbitrary bounded vector.
pub fn dot(a: &Vec3Fx, b: &Vec3Fx) -> (r: i64)
    requires
        in_bounds(*a, UNIT_BOUND as int),
        in_bounds(*b, DOT_BOUND as int),
    ensures
        r == dot_spec(*a, *b),
{
    proof {
        let ua = UNIT_BOUND as int;
        let bd = DOT_BOUND as int;
        assert({
            &&& -ua * bd <= a.x * b.x <= ua * bd
            &&& -ua * bd <= a.y * b.y <= ua * bd
            &&& -ua * bd <= a.z * b.z <= ua * bd
        }) by (nonlinear_arith)
            requires
                in_bounds(*a, ua) && in_bounds(*b, bd),
        ;
    }
    a.x * b.x + a.y * b.y + a.z * b.z
}

pub fn cross(a: &Vec3Fx, b: &Vec3Fx) -> (r: Vec3Fx)
    requires
        in_bounds(*a, CROSS_BOUND as int),
        in_bounds(*b, CROSS_BOUND as int),
    ensures
        r.x == cross_x(*a, *b),
        r.y == cross_y(*a, *b),
        r.z == cross_z(*a, *b),
{
    proof {
        let bd = CROSS_BOUND as int;
        assert({
            &&& -bd * bd <= a.y * b.z <= bd * bd
            &&& -bd * bd <= a.z * b.y <= bd * bd
            &&& -bd * bd <= a.z * b.x <= bd * bd
            &&& -bd * bd <= a.x * b.z <= bd * bd
            &&& -bd * bd <= a.x * b.y <= bd * bd
            &&& -bd * bd <= a.y * b.x <= bd * bd
        }) by (nonlinear_arith)
            requires
                in_bounds(*a, bd) && in_bounds(*b, bd),
        ;
    }
    Vec3Fx { x: a.y * b.z - a.z * b.y, y: a.z * b.x - a.x * b.z, z: a.x * b.y - a.y * b.x }
}

/// Rounding toward zero never enlarges a scaled component: if `|c| <= len`,
/// then `|c * s / len| <= s`.
pub proof fn lemma_scaled_div_bounded(c: int, len: int, s: int)
    requires
        0 < len,
        0 <= s,
        -len <= c <= len,
    ensures
        -s <= div_t(c * s, len) <= s,
{
    if c * s >= 0 {
        vstd::arithmetic::mul::lemma_mul_inequality(c, len, s);
        vstd::arithmetic::div_mod::lemma_div_is_ordered(c * s, len * s, len);
        vstd::arithmetic::div_mod::lemma_div_by_multiple(s, len);
        assert(len * s == s * len) by (nonlinear_arith);
        vstd::arithmetic::div_mod::lemma_div_pos_is_pos(c * s, len);
    } else {
        let m = -(c * s);
        assert(-(c * s) == (-c) * s) by (nonlinear_arith);
        vstd::arithmetic::mul::lemma_mul_inequality(-c, len, s);
        vstd::arithmetic::div_mod::lemma_div_is_ordered(m, len * s, len);
        vstd::arithmetic::div_mod::lemma_div_by_multiple(s, len);
        assert(len * s == s * len) by (nonlinear_arith);
        vstd::arithmetic::div_mod::lemma_div_pos_is_pos(m, len);
    }
}

/// No component is longer than the whole vector: if `c` is a component of
/// `v`, then `|c| <= len_of(v)`.
pub proof fn lemma_component_le_len(v: Vec3Fx, c: int)
    requires
        c == v.x || c == v.y || c == v.z,
        1 <= norm_sq(v),
    ensures
        -len_of(v) <= c <= len_of(v),
        1 <= len_of(v),
{
    let n = norm_sq(v) as nat;
    lemma_sqrt_floor_bounds(n);
    let len = sqrt_floor(n) as int;
    assert(c * c <= n) by (nonlinear_arith)
        requires
            n == v.x * v.x + v.y * v.y + v.z * v.z && (c == v.x || c == v.y || c == v.z),
    ;
    assert(-len <= c <= len) by (nonlinear_arith)
        requires
            c * c <= n && n < (len + 1) * (len + 1) && 0 <= len,
    ;
    assert(1 <= len) by (nonlinear_arith)
        requires
            1 <= n && n < (len + 1) * (len + 1) && 0 <= len,
    ;
}

pub fn normalize(v: &Vec3Fx) -> (r: Vec3Fx)
    requires
        in_bounds(*v, CROSS_BOUND as int),
        1 <= norm_sq(*v),
    ensures
        r == normalize_spec(*v),
        in_bounds(r, SCALE as int),
{
    proof {
        let bd = CROSS_BOUND as int;
        assert({
            &&& 0 <= v.x * v.x <= bd * bd
            &&& 0 <= v.y * v.y <= bd * bd
            &&& 0 <= v.z * v.z <= bd * bd
        }) by (nonlinear_arith)
            requires
                in_bounds(*v, bd),
        ;
    }
    let px: i128 = (v.x as i128) * (v.x as i128);
    let py: i128 = (v.y as i128) * (v.y as i128);
    let pz: i128 = (v.z as i128) * (v.z as i128);
    let n: u64 = (px + py + pz) as u64;
    let len: u64 = isqrt_u64(n);
    proof {
        lemma_component_le_len(*v, v.x as int);
        lemma_component_le_len(*v, v.y as int);
        lemma_component_le_len(*v, v.z as int);
        lemma_scaled_div_bounded(v.x as int, len as int, SCALE as int);
        lemma_scaled_div_bounded(v.y as int, len as int, SCALE as int);
        lemma_scaled_div_bounded(v.z as int, len as int, SCALE as int);
    }
    let rx: i128 = div_trunc_i128((v.x as i128) * (SCALE as i128), len as i128);
    let ry: i128 = div_trunc_i128((v.y as i128) * (SCALE as i128), len as i128);
    let rz: i128 = div_trunc_i128((v.z as i128) * (SCALE as i128), len as i128);
    Vec3Fx { x: rx as i64, y: ry as i64, z: rz as i64 }
}

/// The dot product of two bounded vectors is bounded by three times the
/// product of the bounds.
pub proof fn lemma_dot_bound(a: Vec3Fx, b: Vec3Fx, ba: int, bb: int) by (nonlinear_arith)
    requires
        0 <= ba,
        0 <= bb,
        in_bounds(a, ba),
        in_bounds(b, bb),
    ensures
        -3 * ba * bb <= dot_spec(a, b) <= 3 * ba * bb,
{
}

/// A 4x4 matrix of fixed-point scalars, stored column-major: entry
/// `(row, col)` lives at index `col * 4 + row`, as the graphics API expects
/// its matrix uniforms.
#[derive(Clone, Copy, PartialEq, Eq, Debug)]
pub struct Mat4Fx {
    pub m: [i64; 16],
}

} // verus!
