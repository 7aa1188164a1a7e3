//! Fixed-point arithmetic on the plane.
//!
//! A length of `UNIT` is the height of the field. Coordinates, sizes and
//! speeds are `i32` counts of millionths; sums that leave that range stop at
//! its ends.

use crate::timer::NANOS_PER_SEC;
use vstd::prelude::*;

verus! {

/// The height of the field.
pub const UNIT: i32 = 1_000_000;

/// `v`, or the nearer end of `lo..=hi` where `v` lies outside.
pub open spec fn clamp(v: int, lo: int, hi: int) -> int {
    if v < lo {
        lo
    } else if v > hi {
        hi
    } else {
        v
    }
}

/// `v` brought into the range of `i32`.
pub open spec fn clamp_i32(v: int) -> int {
    clamp(v, i32::MIN as int, i32::MAX as int)
}

/// `a / b` rounded towards zero, for a positive `b`.
pub open spec fn quotient(a: int, b: int) -> int {
    if a >= 0 {
        a / b
    } else {
        -((-a) / b)
    }
}

/// How far something moving at `speed` per second gets in `delta` nanoseconds.
pub open spec fn travelled(speed: int, delta: nat) -> int {
    quotient(speed * delta, NANOS_PER_SEC as int)
}

/// The largest `r` with `r * r <= n`.
pub closed spec fn sqrt_floor(n: nat) -> nat
    decreases n,
{
    if n == 0 {
        0
    } else {
        let r = sqrt_floor((n - 1) as nat);
        if (r + 1) * (r + 1) <= n {
            r + 1
        } else {
            r
        }
    }
}

/// `sqrt_floor(n)` squared does not exceed `n`, and the next number squared does.
pub proof fn lemma_sqrt_floor(n: nat)
    ensures
        sqrt_floor(n) * sqrt_floor(n) <= n < (sqrt_floor(n) + 1) * (sqrt_floor(n) + 1),
    decreases n,
{
    let s = sqrt_floor(n);
    if n == 0 {
        assert(s * s == 0 && (s + 1) * (s + 1) == 1) by (nonlinear_arith)
            requires
                s == 0,
        ;
    } else {
        lemma_sqrt_floor((n - 1) as nat);
        let r = sqrt_floor((n - 1) as nat);
        if (r + 1) * (r + 1) <= n {
            assert(s == r + 1);
            assert((s + 1) * (s + 1) > s * s) by (nonlinear_arith)
                requires
                    s >= 0,
            ;
        } else {
            assert(s == r);
        }
    }
}

/// Only one number has its square at or below `n` and its successor's above.
pub proof fn lemma_sqrt_unique(n: nat, r: nat)
    requires
        r * r <= n < (r + 1) * (r + 1),
    ensures
        r == sqrt_floor(n),
{
    lemma_sqrt_floor(n);
    let s = sqrt_floor(n);
    if r < s {
        assert((r + 1) * (r + 1) <= s * s) by (nonlinear_arith)
            requires
                0 <= r,
                r + 1 <= s,
        ;
    } else if s < r {
        assert((s + 1) * (s + 1) <= r * r) by (nonlinear_arith)
            requires
                0 <= s,
                s + 1 <= r,
        ;
    }
}

/// Products of bounded factors are bounded.
pub(crate) proof fn lemma_product_bound(a: int, b: int, bound_a: int, bound_b: int)
    requires
        -bound_a <= a <= bound_a,
        -bound_b <= b <= bound_b,
    ensures
        -(bound_a * bound_b) <= a * b <= bound_a * bound_b,
{
    assert(-(bound_a * bound_b) <= a * b <= bound_a * bound_b) by (nonlinear_arith)
        requires
            -bound_a <= a <= bound_a,
            -bound_b <= b <= bound_b,
    ;
}

/// `v` brought into the range of `i32`.
pub fn saturate(v: i128) -> (r: i32)
    ensures
        r == clamp_i32(v as int),
{
    if v < i32::MIN as i128 {
        i32::MIN
    } else if v > i32::MAX as i128 {
        i32::MAX
    } else {
        v as i32
    }
}

/// `a / b` rounded towards zero.
pub fn div_toward_zero(a: i128, b: i128) -> (r: i128)
    requires
        b > 0,
        a > i128::MIN,
    ensures
        r == quotient(a as int, b as int),
        a >= 0 ==> 0 <= r <= a,
        a <= 0 ==> a <= r <= 0,
{
    if a >= 0 {
        proof {
            vstd::arithmetic::div_mod::lemma_div_pos_is_pos(a as int, b as int);
            vstd::arithmetic::div_mod::lemma_div_is_ordered_by_denominator(a as int, 1, b as int);
        }
        a / b
    } else {
        let pos: i128 = -a;
        proof {
            vstd::arithmetic::div_mod::lemma_div_pos_is_pos(pos as int, b as int);
            vstd::arithmetic::div_mod::lemma_div_is_ordered_by_denominator(pos as int, 1, b as int);
        }
        -(pos / b)
    }
}

/// How far something moving at `speed` per second gets in `delta` nanoseconds.
pub fn displacement(speed: i32, delta: u64) -> (r: i128)
    ensures
        r == travelled(speed as int, delta as nat),
        -0x8000_0000_0000_0000_0000_0000 <= r <= 0x8000_0000_0000_0000_0000_0000,
{
    proof {
        lemma_product_bound(speed as int, delta as int, 0x8000_0000, 0x1_0000_0000_0000_0000);
    }
    let product: i128 = speed as i128 * delta as i128;
    div_toward_zero(product, NANOS_PER_SEC as i128)
}

/// The largest `r` with `r * r <= n`, found by bisection.
pub fn isqrt(n: u128) -> (r: u64)
    ensures
        r == sqrt_floor(n as nat),
{
    let mut lo: u128 = 0;
    let mut hi: u128 = 0x1_0000_0000_0000_0000;
    assert(hi * hi > n) by (nonlinear_arith)
        requires
            hi == 0x1_0000_0000_0000_0000,
            n <= u128::MAX,
    ;
    while hi - lo > 1
        invariant
            lo < hi <= 0x1_0000_0000_0000_0000,
            lo * lo <= n < hi * hi,
        decreases hi - lo,
    {
        let mid: u128 = lo + (hi - lo) / 2;
        assert(mid * mid <= 0xffff_ffff_ffff_ffff * 0xffff_ffff_ffff_ffff) by (nonlinear_arith)
            requires
                0 <= mid <= 0xffff_ffff_ffff_ffff,
        ;
        if mid * mid <= n {
            lo = mid;
        } else {
            hi = mid;
        }
    }
    proof {
        lemma_sqrt_unique(n as nat, lo as nat);
    }
    lo as u64
}

/// A point or a direction in the plane.
#[derive(Debug, Clone, Copy, PartialEq, Eq, Hash, Structural)]
pub struct Vec2 {
    pub x: i32,
    pub y: i32,
}

/// The square of the distance between two points.
pub open spec fn dist_sq(a: Vec2, b: Vec2) -> int {
    (a.x - b.x) * (a.x - b.x) + (a.y - b.y) * (a.y - b.y)
}

/// How much finer than a millionth lengths are resolved while a direction is
/// scaled: by this factor.
pub const AIM_SCALE: i64 = 0x1_0000;

/// The distance between two points in units of one `AIM_SCALE`th of a
/// millionth, rounded down.
pub open spec fn fine_distance(a: Vec2, b: Vec2) -> int {
    sqrt_floor((dist_sq(a, b) * AIM_SCALE * AIM_SCALE) as nat) as int
}

/// The velocity of something that leaves `from` towards `to` at `speed`: the
/// difference of the two points, scaled to the length `speed`. Where the two
/// points coincide there is no direction to take, and the velocity points
/// along the x axis.
pub open spec fn aimed(from: Vec2, to: Vec2, speed: int) -> Vec2 {
    if to == from {
        Vec2 { x: clamp_i32(speed) as i32, y: 0 }
    } else {
        Vec2 {
            x: clamp_i32(
                quotient((to.x - from.x) * speed * AIM_SCALE, fine_distance(to, from)),
            ) as i32,
            y: clamp_i32(
                quotient((to.y - from.y) * speed * AIM_SCALE, fine_distance(to, from)),
            ) as i32,
        }
    }
}

impl Vec2 {
    /// The point with the coordinates `x` and `y`.
    pub fn new(x: i32, y: i32) -> (r: Vec2)
        ensures
            r == (Vec2 { x, y }),
    {
        Vec2 { x, y }
    }

    /// The origin, and the direction of something at rest.
    pub fn zero() -> (r: Vec2)
        ensures
            r == (Vec2 { x: 0, y: 0 }),
    {
        Vec2 { x: 0, y: 0 }
    }

    /// Where a point at `self` is after moving at `velocity` for `delta`
    /// nanoseconds.
    pub open spec fn moved(self, velocity: Vec2, delta: nat) -> Vec2 {
        Vec2 {
            x: clamp_i32(self.x + travelled(velocity.x as int, delta)) as i32,
            y: clamp_i32(self.y + travelled(velocity.y as int, delta)) as i32,
        }
    }

    /// One step of motion in a straight line.
    pub fn advance(self, velocity: Vec2, delta: u64) -> (r: Vec2)
        ensures
            r == self.moved(velocity, delta as nat),
    {
        Vec2 {
            x: saturate(self.x as i128 + displacement(velocity.x, delta)),
            y: saturate(self.y as i128 + displacement(velocity.y, delta)),
        }
    }

    /// The square of the distance to `other`.
    pub fn distance_sq(self, other: Vec2) -> (r: u128)
        ensures
            r == dist_sq(self, other),
            r <= 0x2_0000_0000_0000_0000,
    {
        let dx: i128 = self.x as i128 - other.x as i128;
        let dy: i128 = self.y as i128 - other.y as i128;
        proof {
            lemma_product_bound(dx as int, dx as int, 0xffff_ffff, 0xffff_ffff);
            lemma_product_bound(dy as int, dy as int, 0xffff_ffff, 0xffff_ffff);
            assert(dx * dx >= 0) by (nonlinear_arith);
            assert(dy * dy >= 0) by (nonlinear_arith);
        }
        (dx * dx + dy * dy) as u128
    }
}

/// The velocity of something that leaves `from` towards `to` at `speed`.
pub fn aim(from: Vec2, to: Vec2, speed: i32) -> (r: Vec2)
    ensures
        r == aimed(from, to, speed as int),
{
    if to.x == from.x && to.y == from.y {
        return Vec2 { x: speed, y: 0 };
    }
    let dx: i128 = to.x as i128 - from.x as i128;
    let dy: i128 = to.y as i128 - from.y as i128;
    let scale: i128 = AIM_SCALE as i128;
    let apart: u128 = to.distance_sq(from);
    proof {
        assert(dx * dx + dy * dy >= 1) by (nonlinear_arith)
            requires
                dx != 0 || dy != 0,
        ;
        assert(0x1_0000_0000 <= apart * 0x1_0000_0000 <= 0x2_0000_0000_0000_0000
            * 0x1_0000_0000 && apart * AIM_SCALE * AIM_SCALE == apart * 0x1_0000_0000)
            by (nonlinear_arith)
            requires
                1 <= apart <= 0x2_0000_0000_0000_0000,
                AIM_SCALE == 0x1_0000,
        ;
        lemma_sqrt_reaches((apart * 0x1_0000_0000) as nat, 0x1_0000);
        lemma_product_bound(dx as int, speed as int, 0xffff_ffff, 0x8000_0000);
        lemma_product_bound(dy as int, speed as int, 0xffff_ffff, 0x8000_0000);
        lemma_product_bound(dx * speed, scale as int, 0xffff_ffffint * 0x8000_0000int, 0x1_0000);
        lemma_product_bound(dy * speed, scale as int, 0xffff_ffffint * 0x8000_0000int, 0x1_0000);
    }
    let length: u64 = isqrt(apart * 0x1_0000_0000);
    Vec2 {
        x: saturate(div_toward_zero(dx * speed as i128 * scale, length as i128)),
        y: saturate(div_toward_zero(dy * speed as i128 * scale, length as i128)),
    }
}

/// Something aimed straight along the x axis moves along it at `speed`,
/// however far away the target is.
pub proof fn lemma_aim_along_x(from: Vec2, to: Vec2, speed: int)
    requires
        to.y == from.y,
        to.x >= from.x,
        i32::MIN <= speed <= i32::MAX,
    ensures
        aimed(from, to, speed) == (Vec2 { x: speed as i32, y: 0 }),
{
    if to != from {
        let dx = to.x - from.x;
        let fine = dx * AIM_SCALE;
        assert(dist_sq(to, from) * AIM_SCALE * AIM_SCALE == fine * fine) by (nonlinear_arith)
            requires
                dist_sq(to, from) == dx * dx + (to.y - from.y) * (to.y - from.y),
                to.y - from.y == 0,
                fine == dx * AIM_SCALE,
        ;
        assert(fine * fine < (fine + 1) * (fine + 1) && fine * fine >= 0 && fine > 0)
            by (nonlinear_arith)
            requires
                dx > 0,
                fine == dx * AIM_SCALE,
                AIM_SCALE == 0x1_0000,
        ;
        lemma_sqrt_unique((fine * fine) as nat, fine as nat);
        assert(quotient(dx * speed * AIM_SCALE, fine) == speed) by (nonlinear_arith)
            requires
                dx > 0,
                fine == dx * AIM_SCALE,
                AIM_SCALE == 0x1_0000,
        ;
        assert(quotient((to.y - from.y) * speed * AIM_SCALE, fine) == 0) by (nonlinear_arith)
            requires
                fine > 0,
                to.y - from.y == 0,
        ;
    }
}

/// The root of a number is at least any number whose square the number
/// reaches.
pub proof fn lemma_sqrt_reaches(n: nat, floor: nat)
    requires
        floor * floor <= n,
    ensures
        floor <= sqrt_floor(n),
{
    lemma_sqrt_floor(n);
    let s = sqrt_floor(n);
    if s < floor {
        assert((s + 1) * (s + 1) <= floor * floor) by (nonlinear_arith)
            requires
                0 <= s,
                s + 1 <= floor,
        ;
    }
}

} // verus!
