use vstd::prelude::*;

use crate::classify::MAX_STEP_MS;

verus! {

/// `a / d` for a positive `d`, rounded toward zero.
pub open spec fn div_toward_zero(a: int, d: int) -> int {
    if a >= 0 {
        a / d
    } else {
        -((-a) / d)
    }
}

/// Centered rate of change, per second and rounded toward zero, of a
/// quantity that went from `before` to `after` across `2 * half_span_ms`
/// milliseconds.
pub open spec fn centered_rate(before: int, after: int, half_span_ms: int) -> int {
    div_toward_zero((after - before) * 1000, 2 * half_span_ms)
}

/// Rate of change per second of a quantity sampled `half_span_ms` before and
/// after an instant.
pub fn rate_per_second(before: i32, after: i32, half_span_ms: i64) -> (r: i64)
    requires
        0 < half_span_ms <= MAX_STEP_MS,
    ensures
        r == centered_rate(before as int, after as int, half_span_ms as int),
{
    let diff = (after as i64 - before as i64) * 1000;
    diff / (2 * half_span_ms)
}

/// Angular speed, in microdegrees per second, of a point that moved `arc`
/// microdegrees across `2 * half_span_ms` milliseconds.
pub open spec fn speed_of(arc: int, half_span_ms: int) -> int {
    arc * 1000 / (2 * half_span_ms)
}

/// The angular speed of a point that covered `arc` in `2 * half_span_ms`.
pub fn angular_speed(arc: u32, half_span_ms: i64) -> (r: i64)
    requires
        0 < half_span_ms <= MAX_STEP_MS,
    ensures
        r == speed_of(arc as int, half_span_ms as int),
        0 <= r,
{
    (arc as i64) * 1000 / (2 * half_span_ms)
}

} // verus!
