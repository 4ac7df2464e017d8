use vstd::prelude::*;
use vstd::arithmetic::div_mod::lemma_div_is_ordered;

use crate::units::{MAS_PER_RAD, MILLI_MICRODEG_PER_RAD};

verus! {

/// The integer square root of `n`, rounded down.
pub open spec fn floor_sqrt(n: nat) -> nat
    decreases n,
{
    if n == 0 {
        0
    } else {
        let r = floor_sqrt((n - 1) as nat);
        if (r + 1) * (r + 1) <= n {
            r + 1
        } else {
            r
        }
    }
}

/// `floor_sqrt(n)` is the largest integer whose square does not exceed `n`.
pub proof fn lemma_floor_sqrt_bounds(n: nat)
    ensures
        floor_sqrt(n) * floor_sqrt(n) <= n,
        n < (floor_sqrt(n) + 1) * (floor_sqrt(n) + 1),
    decreases n,
{
    if n > 0 {
        lemma_floor_sqrt_bounds((n - 1) as nat);
        let r = floor_sqrt((n - 1) as nat);
        let f = floor_sqrt(n);
        if (r + 1) * (r + 1) <= n {
            assert(f == r + 1);
        } else {
            assert(f == r);
        }
        assert(f * f <= n && n < (f + 1) * (f + 1)) by (nonlinear_arith)
            requires
                r * r <= n - 1,
                n - 1 < (r + 1) * (r + 1),
                f == r + 1 ==> (r + 1) * (r + 1) <= n,
                f == r ==> n < (r + 1) * (r + 1),
                f == r || f == r + 1,
        ;
    } else {
        let f = floor_sqrt(n);
        assert(f == 0);
        assert(n < (f + 1) * (f + 1)) by (nonlinear_arith)
            requires
                f == 0,
                n == 0,
        ;
    }
}

/// Any `r` with `r * r <= n < (r + 1) * (r + 1)` is `floor_sqrt(n)`.
pub proof fn lemma_floor_sqrt_unique(r: nat, n: nat)
    requires
        r * r <= n,
        n < (r + 1) * (r + 1),
    ensures
        r == floor_sqrt(n),
{
    lemma_floor_sqrt_bounds(n);
    let s = floor_sqrt(n);
    assert(r == s) by (nonlinear_arith)
        requires
            r * r <= n,
            n < (r + 1) * (r + 1),
            s * s <= n,
            n < (s + 1) * (s + 1),
    ;
}

/// Integer square root, rounded down.
pub fn isqrt(n: u64) -> (r: u64)
    ensures
        r == floor_sqrt(n as nat),
        r * r <= n < (r + 1) * (r + 1),
{
    let mut lo: u64 = 0;
    let mut hi: u64 = 0x1_0000_0000;
    assert(n < hi * hi);
    while hi - lo > 1
        invariant
            lo < hi <= 0x1_0000_0000,
            lo * lo <= n,
            n < hi * hi,
        decreases hi - lo,
    {
        let mid = lo + (hi - lo) / 2;
        assert(mid * mid <= 0x1_0000_0000 * 0x1_0000_0000) by (nonlinear_arith)
            requires
                mid <= 0x1_0000_0000,
        ;
        if (mid as u128) * (mid as u128) <= n as u128 {
            lo = mid;
        } else {
            hi = mid;
        }
    }
    proof {
        lemma_floor_sqrt_unique(lo as nat, n as nat);
    }
    lo
}

/// Time, in milliseconds, that a point moving in a straight line at `speed`
/// microdegrees per second spends inside a disk of angular radius `radius`
/// whose center it passes at closest distance `separation` (microdegrees).
pub open spec fn transit_duration_ms(separation: int, radius: int, speed: int) -> int {
    if speed <= 0 || separation >= radius {
        0
    } else {
        2 * (floor_sqrt((radius * radius - separation * separation) as nat) as int) * 1000 / speed
    }
}

/// Duration of a transit across a disk: twice the half chord at offset
/// `separation`, divided by the angular speed. Zero when the path misses the
/// disk or when the speed is not positive.
pub fn calculate_transit_duration(separation: u32, radius: u32, speed: i64) -> (r: u64)
    ensures
        r == transit_duration_ms(separation as int, radius as int, speed as int),
        speed > 0 && separation == 0 ==> r == 2 * (radius as int) * 1000 / (speed as int),
        separation >= radius ==> r == 0,
        speed <= 0 ==> r == 0,
{
    if speed <= 0 || separation >= radius {
        return 0;
    }
    assert(radius * radius <= 0xffff_ffff * 0xffff_ffff) by (nonlinear_arith)
        requires
            radius <= 0xffff_ffff,
    ;
    let r2 = (radius as u64) * (radius as u64);
    assert(separation * separation <= radius * radius) by (nonlinear_arith)
        requires
            separation < radius,
    ;
    let d2 = (separation as u64) * (separation as u64);
    assert(d2 <= r2) by (nonlinear_arith)
        requires
            separation < radius,
            r2 == radius * radius,
            d2 == separation * separation,
    ;
    let half = isqrt(r2 - d2);
    proof {
        lemma_floor_sqrt_bounds((r2 - d2) as nat);
        assert(half <= radius) by (nonlinear_arith)
            requires
                half * half <= r2 - d2,
                r2 == radius * radius,
        ;
        if separation == 0 {
            assert(r2 < (radius + 1) * (radius + 1)) by (nonlinear_arith)
                requires
                    r2 == radius * radius,
            ;
            lemma_floor_sqrt_unique(radius as nat, r2 as nat);
        }
    }
    2 * half * 1000 / (speed as u64)
}

/// Apparent angular size, in milliarcseconds, of an object `dimension_m` long
/// seen at `range_m`, by the small-angle approximation; zero at range zero.
pub open spec fn angular_size_mas(dimension_m: int, range_m: int) -> int {
    if range_m <= 0 {
        0
    } else {
        dimension_m * MAS_PER_RAD / range_m
    }
}

/// Angular size of the satellite as seen from the observer.
pub fn satellite_angular_size(dimension_m: u32, range_m: u64) -> (r: u64)
    ensures
        r == angular_size_mas(dimension_m as int, range_m as int),
{
    if range_m == 0 {
        0
    } else {
        assert(dimension_m * MAS_PER_RAD <= 0xffff_ffff * 206_264_806) by (nonlinear_arith)
            requires
                dimension_m <= 0xffff_ffff,
        ;
        (dimension_m as u64) * MAS_PER_RAD / range_m
    }
}

/// Ground distance, in meters, that shifts the line of sight to an object at
/// `range_m` by `separation` microdegrees (arc length of the small angle).
pub open spec fn travel_m(separation: int, range_m: int) -> int {
    separation * range_m * 1000 / (MILLI_MICRODEG_PER_RAD as int)
}

/// How far the observer would have to move for the satellite to line up
/// with the body.
pub fn required_travel(separation: u32, range_m: u64) -> (r: u128)
    ensures
        r == travel_m(separation as int, range_m as int),
{
    assert(separation * range_m * 1000 <= 0xffff_ffff * 0xffff_ffff_ffff_ffff * 1000)
        by (nonlinear_arith)
        requires
            separation <= 0xffff_ffff,
            range_m <= 0xffff_ffff_ffff_ffff,
    ;
    (separation as u128) * (range_m as u128) * 1000 / MILLI_MICRODEG_PER_RAD
}

/// A larger separation never asks for a shorter journey.
pub proof fn lemma_travel_monotone(s1: int, s2: int, range_m: int)
    requires
        0 <= s1 <= s2,
        0 <= range_m,
    ensures
        travel_m(s1, range_m) <= travel_m(s2, range_m),
{
    assert(s1 * range_m * 1000 <= s2 * range_m * 1000) by (nonlinear_arith)
        requires
            0 <= s1 <= s2,
            0 <= range_m,
    ;
    lemma_div_is_ordered(s1 * range_m * 1000, s2 * range_m * 1000, MILLI_MICRODEG_PER_RAD as int);
}

} // verus!
