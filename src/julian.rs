use vstd::prelude::*;

verus! {

/// Julian day number of a Gregorian calendar date: the Julian date at noon
/// of that day, so that midnight at its start is this number minus one half
/// (Meeus's formula, with the years counted from March).
pub open spec fn jdn(year: int, month: int, day: int) -> int {
    let y = if month <= 2 { year - 1 } else { year };
    let m = if month <= 2 { month + 12 } else { month };
    let a = y / 100;
    let b = 2 - a + a / 4;
    1461 * (y + 4716) / 4 + 306001 * (m + 1) / 10000 + day + b - 1524
}

/// `a / d` rounded down, for a positive `d`.
fn floor_div(a: i64, d: i64) -> (r: i64)
    requires
        d > 0,
    ensures
        r == a as int / d as int,
{
    assert(i64::MIN <= a as int / d as int <= i64::MAX) by (nonlinear_arith)
        requires
            d > 0,
            i64::MIN <= a <= i64::MAX,
    ;
    match a.checked_div_euclid(d) {
        Some(q) => q,
        None => 0,
    }
}

/// The Julian day number of the date `year`-`month`-`day` (Gregorian).
pub fn julian_day_number(year: i32, month: u32, day: u32) -> (r: i64)
    requires
        1 <= month <= 12,
        day <= 31,
    ensures
        r == jdn(year as int, month as int, day as int),
{
    let (y, m) = if month <= 2 {
        (year as i64 - 1, month as i64 + 12)
    } else {
        (year as i64, month as i64)
    };
    let a = floor_div(y, 100);
    let b = 2 - a + floor_div(a, 4);
    floor_div(1461 * (y + 4716), 4) + 306001 * (m + 1) / 10000 + day as i64 + b - 1524
}

} // verus!
