use vstd::prelude::*;

verus! {

// Angles are held in microdegrees, distances in meters and instants in
// milliseconds since the Unix epoch (UTC).

/// Microdegrees in one degree.
pub const MICRODEG_PER_DEG: i64 = 1_000_000;

/// Microdegrees in one full turn.
pub const FULL_TURN: i64 = 360_000_000;

/// Thousandths of a microdegree in one radian (180e9 / pi, rounded).
pub const MILLI_MICRODEG_PER_RAD: u128 = 57_295_779_513;

/// Milliarcseconds in one radian (648e6 / pi, rounded).
pub const MAS_PER_RAD: u64 = 206_264_806;

/// Mean radius of the Sun.
pub const SUN_RADIUS_M: u64 = 696_340_000;

/// Mean radius of the Moon.
pub const MOON_RADIUS_M: u64 = 1_737_400;

/// One astronomical unit.
pub const AU_M: u64 = 149_597_870_700;

/// WGS-84 equatorial radius of the Earth.
pub const EARTH_RADIUS_M: u64 = 6_378_137;

/// Largest linear dimension of the International Space Station.
pub const ISS_DIMENSION_M: u32 = 108;

/// The two bodies whose disks the search looks at.
#[derive(Clone, Copy, Debug, PartialEq, Eq, Structural)]
pub enum Body {
    Sun,
    Moon,
}

impl Body {
    /// Physical radius of the body, in meters.
    pub fn radius_m(self) -> (r: u64)
        ensures
            r == (match self {
                Body::Sun => SUN_RADIUS_M,
                Body::Moon => MOON_RADIUS_M,
            }),
    {
        match self {
            Body::Sun => SUN_RADIUS_M,
            Body::Moon => MOON_RADIUS_M,
        }
    }

    /// The body's display name.
    pub fn name(self) -> (r: &'static str)
        ensures
            self == Body::Sun ==> r@ == "Sun"@,
            self == Body::Moon ==> r@ == "Moon"@,
    {
        match self {
            Body::Sun => "Sun",
            Body::Moon => "Moon",
        }
    }
}

/// Normalizes an angle in microdegrees into `[0, FULL_TURN)`.
pub fn normalize_turn(a: i64) -> (r: i64)
    ensures
        0 <= r < FULL_TURN,
        r as int == (a as int) % (FULL_TURN as int),
{
    let m = a % FULL_TURN;
    if m < 0 {
        m + FULL_TURN
    } else {
        m
    }
}

} // verus!
