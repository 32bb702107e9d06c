use vstd::prelude::*;

verus! {

/// Micro-units per world unit, and microseconds per second.
pub const SCALE: i64 = 1_000_000;

/// Largest magnitude of a coordinate or velocity component that the step functions take.
pub const LIMIT: i64 = 10_000_000_000;

/// Division of `a` by a positive `d`, rounded toward zero.
pub open spec fn tdiv(a: int, d: int) -> int {
    if a >= 0 {
        a / d
    } else {
        -((-a) / d)
    }
}

/// `v` times the ratio `num / den`, rounded toward zero.
pub open spec fn ratio(v: int, num: int, den: int) -> int {
    tdiv(v * num, den)
}

/// A mathematical vector of three integer components.
pub struct V3 {
    pub x: int,
    pub y: int,
    pub z: int,
}

pub open spec fn v3(x: int, y: int, z: int) -> V3 {
    V3 { x, y, z }
}

pub open spec fn add3(a: V3, b: V3) -> V3 {
    v3(a.x + b.x, a.y + b.y, a.z + b.z)
}

pub open spec fn sub3(a: V3, b: V3) -> V3 {
    v3(a.x - b.x, a.y - b.y, a.z - b.z)
}

/// Each component scaled by `num / den`, rounded toward zero.
pub open spec fn ratio3(a: V3, num: int, den: int) -> V3 {
    v3(ratio(a.x, num, den), ratio(a.y, num, den), ratio(a.z, num, den))
}

pub open spec fn dot3(a: V3, b: V3) -> int {
    a.x * b.x + a.y * b.y + a.z * b.z
}

/// Squared Euclidean length.
pub open spec fn norm2(a: V3) -> int {
    dot3(a, a)
}

pub open spec fn in_limit(c: int) -> bool {
    -LIMIT <= c <= LIMIT
}

pub open spec fn in_limit3(a: V3) -> bool {
    in_limit(a.x) && in_limit(a.y) && in_limit(a.z)
}

/// `r` is the square root of `n`, rounded down.
pub open spec fn is_floor_sqrt(n: int, r: int) -> bool {
    0 <= r && r * r <= n < (r + 1) * (r + 1)
}

/// The square root of a non-negative `n`, rounded down.
pub open spec fn floor_sqrt(n: int) -> int {
    choose|r: int| is_floor_sqrt(n, r)
}

/// A vector in micro-units.
#[derive(Clone, Copy, Debug, PartialEq, Eq, Structural)]
pub struct Vec3 {
    pub x: i64,
    pub y: i64,
    pub z: i64,
}

impl View for Vec3 {
    type V = V3;

    open spec fn view(&self) -> V3 {
        v3(self.x as int, self.y as int, self.z as int)
    }
}

impl Vec3 {
    pub fn new(x: i64, y: i64, z: i64) -> (r: Vec3)
        ensures
            r@ == v3(x as int, y as int, z as int),
    {
        Vec3 { x, y, z }
    }

    pub fn zero() -> (r: Vec3)
        ensures
            r@ == v3(0, 0, 0),
    {
        Vec3 { x: 0, y: 0, z: 0 }
    }
}

/// Proves that the rounded-down square root is unique.
pub proof fn lemma_floor_sqrt_unique(n: int, r: int, s: int)
    requires
        is_floor_sqrt(n, r),
        is_floor_sqrt(n, s),
    ensures
        r == s,
{
    if r < s {
        assert((r + 1) * (r + 1) <= s * s) by (nonlinear_arith)
            requires
                0 <= r,
                r + 1 <= s,
        ;
    } else if s < r {
        assert((s + 1) * (s + 1) <= r * r) by (nonlinear_arith)
            requires
                0 <= s,
                s + 1 <= r,
        ;
    }
}

/// Proves that `floor_sqrt` picks the one root that `is_floor_sqrt` describes.
pub proof fn lemma_floor_sqrt(n: int, r: int)
    requires
        is_floor_sqrt(n, r),
    ensures
        floor_sqrt(n) == r,
{
    assert(is_floor_sqrt(n, floor_sqrt(n)));
    lemma_floor_sqrt_unique(n, r, floor_sqrt(n));
}

/// Division by a positive `d`, rounded toward zero.
pub fn div_trunc(a: i128, d: i128) -> (r: i128)
    requires
        d > 0,
        a > i128::MIN,
    ensures
        r == tdiv(a as int, d as int),
{
    if a >= 0 {
        a / d
    } else {
        -((-a) / d)
    }
}

/// The square root of `n`, rounded down, for `n` below `2^70`.
pub fn isqrt(n: u128) -> (r: u64)
    requires
        n < 0x400000000000000000u128,
    ensures
        is_floor_sqrt(n as int, r as int),
        r as int == floor_sqrt(n as int),
{
    let mut lo: u128 = 0;
    let mut hi: u128 = 0x800000000;
    assert(0x800000000u128 * 0x800000000u128 == 0x400000000000000000u128) by (nonlinear_arith);
    while lo + 1 < hi
        invariant
            lo < hi <= 0x800000000,
            lo * lo <= n,
            n < hi * hi,
        decreases hi - lo,
    {
        let mid: u128 = lo + (hi - lo) / 2;
        assert(mid * mid <= 0x800000000u128 * 0x800000000u128) by (nonlinear_arith)
            requires
                mid <= 0x800000000u128,
        ;
        if mid * mid <= n {
            lo = mid;
        } else {
            hi = mid;
        }
    }
    assert(hi == lo + 1);
    proof {
        lemma_floor_sqrt(n as int, lo as int);
    }
    lo as u64
}

} // verus!
