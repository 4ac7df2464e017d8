use vstd::prelude::*;

use crate::measure::{lemma_travel_monotone, required_travel, travel_m};
use crate::units::ISS_DIMENSION_M;

verus! {

/// Longest step, window or pause the search accepts, in milliseconds.
pub const MAX_STEP_MS: i64 = 0x100_0000_0000;

/// How close a pass came to the body's disk.
#[derive(Clone, Copy, Debug, PartialEq, Eq, Structural)]
pub enum Kind {
    /// The satellite crossed the disk.
    Transit,
    /// It missed the disk by no more than the near margin.
    Near,
    /// It missed, but a short trip would have lined it up.
    Reachable,
}

impl Kind {
    /// The label used for this kind in reports.
    pub fn label(self) -> (r: &'static str)
        ensures
            self == Kind::Transit ==> r@ == "transit"@,
            self == Kind::Near ==> r@ == "near"@,
            self == Kind::Reachable ==> r@ == "reachable"@,
    {
        match self {
            Kind::Transit => "transit",
            Kind::Near => "near",
            Kind::Reachable => "reachable",
        }
    }
}

/// Parameters of the search. Angles in microdegrees, times in milliseconds.
#[derive(Clone, Copy, Debug, PartialEq, Eq, Structural)]
pub struct SearchConfig {
    /// Step of the coarse scan.
    pub coarse_step_ms: i64,
    /// Step of the refinement scan, and half the span of the rate estimates.
    pub fine_step_ms: i64,
    /// Half width of the refinement window around a coarse hit.
    pub refine_window_ms: i64,
    /// Pause after an event before the scan resumes.
    pub cooldown_ms: i64,
    /// Lowest satellite altitude at which a pass counts.
    pub min_sat_alt: i64,
    /// Largest miss beyond the disk's edge that still counts as near.
    pub near_margin: u32,
    /// Extra slack of the coarse prefilter beyond radius and margin.
    pub safety_buffer: u32,
    /// Longest trip, in meters, that makes a miss reachable; zero turns
    /// the reachable class off.
    pub max_travel_m: u64,
    /// Linear size of the satellite, in meters.
    pub sat_dimension_m: u32,
}

impl SearchConfig {
    /// Steps are positive, windows and pauses non-negative and all bounded,
    /// and a cooldown outlasts the refinement window, so that the scan always
    /// moves forward and a pass is reported once.
    pub open spec fn wf(&self) -> bool {
        &&& 0 < self.coarse_step_ms <= MAX_STEP_MS
        &&& 0 < self.fine_step_ms <= MAX_STEP_MS
        &&& 0 <= self.refine_window_ms <= MAX_STEP_MS
        &&& 0 <= self.cooldown_ms <= MAX_STEP_MS
        &&& self.refine_window_ms < self.cooldown_ms
    }
}

impl Default for SearchConfig {
    /// Coarse step 20 s, fine step 1 s, refinement window 60 s each side,
    /// cooldown 300 s, minimum altitude 5 degrees, near margin 0.5 degrees,
    /// prefilter buffer 2 degrees, reach 35 km, satellite size 108 m.
    fn default() -> (r: SearchConfig)
        ensures
            r.wf(),
            r == (SearchConfig {
                coarse_step_ms: 20_000,
                fine_step_ms: 1_000,
                refine_window_ms: 60_000,
                cooldown_ms: 300_000,
                min_sat_alt: 5_000_000,
                near_margin: 500_000,
                safety_buffer: 2_000_000,
                max_travel_m: 35_000,
                sat_dimension_m: ISS_DIMENSION_M,
            }),
    {
        SearchConfig {
            coarse_step_ms: 20_000,
            fine_step_ms: 1_000,
            refine_window_ms: 60_000,
            cooldown_ms: 300_000,
            min_sat_alt: 5_000_000,
            near_margin: 500_000,
            safety_buffer: 2_000_000,
            max_travel_m: 35_000,
            sat_dimension_m: ISS_DIMENSION_M,
        }
    }
}

/// Whether a coarse sample is close enough to the body to be refined.
pub open spec fn candidate(separation: int, radius: int, config: SearchConfig) -> bool {
    separation <= radius + config.near_margin + config.safety_buffer
}

/// The class of a closest approach, or `None` when it is no event.
pub open spec fn classification(
    separation: int,
    radius: int,
    sat_alt: int,
    body_alt: int,
    range_m: int,
    config: SearchConfig,
) -> Option<Kind> {
    if separation <= radius {
        Some(Kind::Transit)
    } else if separation <= radius + config.near_margin {
        Some(Kind::Near)
    } else if range_m > 0 && config.max_travel_m > 0 && travel_m(separation, range_m)
        <= config.max_travel_m && body_alt >= 0 && sat_alt >= config.min_sat_alt {
        Some(Kind::Reachable)
    } else {
        None
    }
}

/// How favorable a class is: transit over near over reachable over nothing.
pub open spec fn rank(k: Option<Kind>) -> int {
    match k {
        Some(Kind::Transit) => 3,
        Some(Kind::Near) => 2,
        Some(Kind::Reachable) => 1,
        None => 0,
    }
}

/// Whether a coarse sample at `separation` from a disk of `radius` is worth
/// refining.
pub fn is_candidate(separation: u32, radius: u32, config: &SearchConfig) -> (r: bool)
    ensures
        r == candidate(separation as int, radius as int, *config),
{
    (separation as u64) <= (radius as u64) + (config.near_margin as u64) + (
    config.safety_buffer as u64)
}

/// Classifies a refined closest approach: inside the disk is a transit,
/// within the near margin of its edge is near, and otherwise a miss that a
/// trip of at most `max_travel_m` would fix, with the body above the horizon
/// and the satellite above the minimum altitude, is reachable.
pub fn classify(
    separation: u32,
    radius: u32,
    sat_alt: i32,
    body_alt: i32,
    range_m: u64,
    config: &SearchConfig,
) -> (r: Option<Kind>)
    ensures
        r == classification(
            separation as int,
            radius as int,
            sat_alt as int,
            body_alt as int,
            range_m as int,
            *config,
        ),
{
    if separation <= radius {
        Some(Kind::Transit)
    } else if (separation as u64) <= (radius as u64) + (config.near_margin as u64) {
        Some(Kind::Near)
    } else if range_m > 0 && config.max_travel_m > 0 && required_travel(separation, range_m)
        <= config.max_travel_m as u128 && body_alt >= 0 && sat_alt as i64 >= config.min_sat_alt {
        Some(Kind::Reachable)
    } else {
        None
    }
}

/// With everything else fixed, a smaller closest-approach separation never
/// gives a less favorable class; in particular a transit stays a transit.
pub proof fn lemma_classification_monotone(
    s1: int,
    s2: int,
    radius: int,
    sat_alt: int,
    body_alt: int,
    range_m: int,
    config: SearchConfig,
)
    requires
        0 <= s1 <= s2,
        0 <= radius,
        0 <= range_m,
    ensures
        rank(classification(s1, radius, sat_alt, body_alt, range_m, config)) >= rank(
            classification(s2, radius, sat_alt, body_alt, range_m, config),
        ),
        classification(s2, radius, sat_alt, body_alt, range_m, config) == Some(Kind::Transit)
            ==> classification(s1, radius, sat_alt, body_alt, range_m, config) == Some(
            Kind::Transit,
        ),
{
    lemma_travel_monotone(s1, s2, range_m);
}

} // verus!
