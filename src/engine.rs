use vstd::prelude::*;

use crate::classify::{
    candidate,
    classification,
    classify,
    is_candidate,
    Kind,
    SearchConfig,
    MAX_STEP_MS,
};
use crate::event::{sort_by_instant, sorted_by_instant, Event};
use crate::measure::{
    angular_size_mas,
    calculate_transit_duration,
    satellite_angular_size,
    transit_duration_ms,
};
use crate::scan::{Phase, Request, Scan};
use crate::units::{Body, FULL_TURN};

verus! {

/// Earliest and latest instant, in milliseconds, that the search accepts.
pub const MAX_INSTANT_MS: i64 = 0x4000_0000_0000_0000;

/// Geometry of satellite and body seen by the observer at one instant.
/// Angles are in microdegrees.
#[derive(Clone, Copy, Debug, PartialEq, Eq, Structural)]
pub struct Sample {
    /// Angular separation between satellite and body center.
    pub separation: u32,
    /// Apparent angular radius of the body.
    pub body_radius: u32,
    pub body_alt: i32,
    pub sat_alt: i32,
    /// Azimuth of the satellite, clockwise from north.
    pub sat_az: i32,
    /// Distance from observer to satellite, in meters.
    pub sat_range_m: u64,
}

/// The sky as the search sees it: where satellite and bodies stand for a
/// fixed observer, and the spherical geometry of directions on the sky.
/// Angles are in microdegrees.
pub trait GeometrySource {
    /// Satellite and body geometry at `instant_ms`, or `None` when the orbit
    /// cannot be propagated to that instant.
    fn sample(&self, body: Body, instant_ms: i64) -> Option<Sample>;

    /// Angle between the sky directions at (`alt_a`, `az_a`) and (`alt_b`, `az_b`).
    fn sky_arc(&self, alt_a: i32, az_a: i32, alt_b: i32, az_b: i32) -> u32;

    /// Angle, clockwise from north, of a motion with the given altitude and
    /// azimuth rates (the two-argument arctangent of `az_rate` over `alt_rate`).
    fn bearing(&self, alt_rate: i64, az_rate: i64) -> i64;
}

/// What every reported event satisfies: its class follows from its own
/// separation, radius, altitudes and range; only a transit has a duration,
/// given by the chord through the disk; the satellite's angular size follows
/// from its range; speed is non-negative and the bearing lies in a full turn.
pub open spec fn event_wf(e: Event, config: SearchConfig) -> bool {
    &&& classification(
        e.separation as int,
        e.body_radius as int,
        e.sat_alt as int,
        e.body_alt as int,
        e.sat_range_m as int,
        config,
    ) == Some(e.kind)
    &&& e.duration_ms == (if e.kind == Kind::Transit {
        transit_duration_ms(e.separation as int, e.body_radius as int, e.speed as int)
    } else {
        0
    })
    &&& e.sat_angular_size_mas == angular_size_mas(
        config.sat_dimension_m as int,
        e.sat_range_m as int,
    )
    &&& 0 <= e.speed
    &&& 0 <= e.motion_direction < FULL_TURN
}

/// Whether index `k` holds the first valid sample of least separation.
pub open spec fn is_closest(samples: Seq<Option<Sample>>, k: int) -> bool {
    &&& 0 <= k < samples.len()
    &&& samples[k] is Some
    &&& forall|i: int|
        0 <= i < samples.len() && samples[i] is Some ==> samples[k]->0.separation
            <= samples[i]->0.separation
    &&& forall|i: int|
        0 <= i < k && samples[i] is Some ==> samples[k]->0.separation < samples[i]->0.separation
}

/// The index of the first valid sample of least separation, if any sample
/// is valid.
pub open spec fn closest_index(samples: Seq<Option<Sample>>) -> Option<int> {
    if exists|k: int| is_closest(samples, k) {
        Some(choose|k: int| is_closest(samples, k))
    } else {
        None
    }
}

/// At most one index is the first of least separation.
pub proof fn lemma_closest_unique(samples: Seq<Option<Sample>>, k1: int, k2: int)
    requires
        is_closest(samples, k1),
        is_closest(samples, k2),
    ensures
        k1 == k2,
{
    if k1 < k2 {
        assert(samples[k2]->0.separation < samples[k1]->0.separation);
    } else if k2 < k1 {
        assert(samples[k1]->0.separation < samples[k2]->0.separation);
    }
}

/// Index of the valid sample with the smallest separation, the first one
/// on ties; `None` when no sample is valid.
pub fn closest_sample(samples: &Vec<Option<Sample>>) -> (r: Option<usize>)
    ensures
        r is None <==> (forall|i: int| 0 <= i < samples@.len() ==> samples@[i] is None),
        r matches Some(k) ==> is_closest(samples@, k as int),
        closest_index(samples@) == (match r {
            Some(k) => Some(k as int),
            None => None::<int>,
        }),
{
    let mut best: Option<usize> = None;
    let mut best_sep: u32 = 0;
    let mut i: usize = 0;
    while i < samples.len()
        invariant
            i <= samples@.len(),
            best is None <==> (forall|j: int| 0 <= j < i ==> samples@[j] is None),
            best matches Some(k) ==> {
                &&& k < i
                &&& samples@[k as int] is Some
                &&& samples@[k as int]->0.separation == best_sep
                &&& forall|j: int|
                    0 <= j < i && samples@[j] is Some ==> best_sep <= samples@[j]->0.separation
                &&& forall|j: int|
                    0 <= j < k && samples@[j] is Some ==> best_sep < samples@[j]->0.separation
            },
        decreases samples@.len() - i,
    {
        match samples[i] {
            Some(s) => {
                if best.is_none() || s.separation < best_sep {
                    best = Some(i);
                    best_sep = s.separation;
                }
            },
            None => {},
        }
        i = i + 1;
    }
    proof {
        match best {
            Some(k) => {
                assert(is_closest(samples@, k as int));
                let c = choose|c: int| is_closest(samples@, c);
                lemma_closest_unique(samples@, c, k as int);
            },
            None => {
                assert(!exists|c: int| is_closest(samples@, c));
            },
        }
    }
    best
}

/// Number of fine steps on each side of the center of a refinement window.
pub open spec fn half_steps(config: SearchConfig) -> int {
    config.refine_window_ms / config.fine_step_ms
}

/// The closest approach found in the samples of a refinement window: the
/// `i`-th sample is taken `(i - half_steps) * fine_step_ms` from the center.
pub open spec fn window_minimum(
    center_ms: int,
    samples: Seq<Option<Sample>>,
    config: SearchConfig,
) -> Option<(int, Sample)> {
    match closest_index(samples) {
        Some(k) => Some(
            (center_ms + (k - half_steps(config)) * config.fine_step_ms, samples[k]->0),
        ),
        None => None,
    }
}

/// The window's center is among its samples, so when the center was
/// sampled the closest approach is found at no greater separation than it.
pub proof fn lemma_window_minimum_not_above_center(
    center_ms: int,
    samples: Seq<Option<Sample>>,
    config: SearchConfig,
)
    requires
        config.wf(),
        samples.len() == 2 * half_steps(config) + 1,
        samples[half_steps(config)] is Some,
    ensures
        window_minimum(center_ms, samples, config) matches Some((_, best)) && best.separation
            <= samples[half_steps(config)]->0.separation,
{
    let n = half_steps(config);
    assert(0 <= n) by (nonlinear_arith)
        requires
            n == config.refine_window_ms / config.fine_step_ms,
            config.fine_step_ms > 0,
            config.refine_window_ms >= 0,
    ;
    let k = lemma_prefix_closest(samples, samples.len() as int);
    assert(is_closest(samples, k));
    let c = choose|c: int| is_closest(samples, c);
    lemma_closest_unique(samples, c, k);
}

/// Among the first `i` samples, one of which is valid, the first valid
/// sample of least separation.
pub proof fn lemma_prefix_closest(samples: Seq<Option<Sample>>, i: int) -> (k: int)
    requires
        0 < i <= samples.len(),
        exists|j: int| 0 <= j < i && samples[j] is Some,
    ensures
        0 <= k < i,
        samples[k] is Some,
        forall|j: int|
            0 <= j < i && samples[j] is Some ==> samples[k]->0.separation
                <= samples[j]->0.separation,
        forall|j: int|
            0 <= j < k && samples[j] is Some ==> samples[k]->0.separation
                < samples[j]->0.separation,
    decreases i,
{
    if exists|j: int| 0 <= j < i - 1 && samples[j] is Some {
        let k0 = lemma_prefix_closest(samples, i - 1);
        if samples[i - 1] is Some && samples[i - 1]->0.separation < samples[k0]->0.separation {
            i - 1
        } else {
            k0
        }
    } else {
        i - 1
    }
}

/// Returns the instant and sample of closest approach among the samples of
/// a refinement window centered on `center_ms`, or `None` when no instant of
/// the window could be sampled.
pub fn refine_minimum(center_ms: i64, samples: &Vec<Option<Sample>>, config: &SearchConfig) -> (r:
    Option<(i64, Sample)>)
    requires
        config.wf(),
        -MAX_INSTANT_MS <= center_ms <= MAX_INSTANT_MS,
        samples@.len() == 2 * half_steps(*config) + 1,
    ensures
        window_minimum(center_ms as int, samples@, *config) == (match r {
            Some((t, s)) => Some((t as int, s)),
            None => None::<(int, Sample)>,
        }),
        r matches Some((t, _)) ==> center_ms - config.refine_window_ms <= t <= center_ms
            + config.refine_window_ms,
{
    let step = config.fine_step_ms;
    let n = config.refine_window_ms / step;
    assert(n * step <= config.refine_window_ms && n <= config.refine_window_ms)
        by (nonlinear_arith)
        requires
            n == config.refine_window_ms / step,
            step > 0,
            config.refine_window_ms >= 0,
    ;
    match closest_sample(samples) {
        Some(k) => {
            let off = k as i64 - n;
            assert(-(n * step) <= off * step <= n * step) by (nonlinear_arith)
                requires
                    -n <= off <= n,
                    step > 0,
            ;
            match samples[k] {
                Some(s) => Some((center_ms + off * step, s)),
                None => None,
            }
        },
        None => None,
    }
}

/// Rates and direction of the satellite's motion on the sky.
#[derive(Clone, Copy, Debug, PartialEq, Eq, Structural)]
pub struct Motion {
    /// Angular speed, in microdegrees per second.
    pub speed: i64,
    pub alt_rate: i64,
    pub az_rate: i64,
    /// Bearing of the motion, clockwise from north, in microdegrees.
    pub direction: i64,
}

impl Motion {
    /// Speed non-negative, bearing within one turn.
    pub open spec fn wf(&self) -> bool {
        0 <= self.speed && 0 <= self.direction < FULL_TURN
    }
}

/// A coarse sample earns a refinement when the satellite is at or above the
/// minimum altitude, the body is not below the horizon, and the separation
/// is within the prefilter.
pub open spec fn worth_refining_spec(s: Sample, config: SearchConfig) -> bool {
    &&& s.sat_alt >= config.min_sat_alt
    &&& s.body_alt >= 0
    &&& candidate(s.separation as int, s.body_radius as int, config)
}

/// Whether a coarse sample earns a refinement.
pub fn worth_refining(s: &Sample, config: &SearchConfig) -> (r: bool)
    ensures
        r == worth_refining_spec(*s, *config),
{
    (s.sat_alt as i64) >= config.min_sat_alt && s.body_alt >= 0 && is_candidate(
        s.separation,
        s.body_radius,
        config,
    )
}

/// The event, if any, made from the closest-approach sample `best` of `body`
/// at `instant_ms`, with the satellite's `motion` there.
pub open spec fn event_from(
    body: Body,
    instant_ms: i64,
    best: Sample,
    motion: Motion,
    config: SearchConfig,
) -> Option<Event> {
    match classification(
        best.separation as int,
        best.body_radius as int,
        best.sat_alt as int,
        best.body_alt as int,
        best.sat_range_m as int,
        config,
    ) {
        Some(kind) => Some(
            Event {
                instant_ms,
                body,
                kind,
                separation: best.separation,
                body_radius: best.body_radius,
                sat_alt: best.sat_alt,
                sat_az: best.sat_az,
                body_alt: best.body_alt,
                speed: motion.speed,
                alt_rate: motion.alt_rate,
                az_rate: motion.az_rate,
                motion_direction: motion.direction,
                duration_ms: if kind == Kind::Transit {
                    transit_duration_ms(
                        best.separation as int,
                        best.body_radius as int,
                        motion.speed as int,
                    ) as u64
                } else {
                    0
                },
                sat_angular_size_mas: angular_size_mas(
                    config.sat_dimension_m as int,
                    best.sat_range_m as int,
                ) as u64,
                sat_range_m: best.sat_range_m,
            },
        ),
        None => None,
    }
}

/// Classifies a closest approach and, when it is an event, measures it:
/// transit duration for transits, and the satellite's angular size.
pub fn make_event(
    body: Body,
    instant_ms: i64,
    best: &Sample,
    motion: &Motion,
    config: &SearchConfig,
) -> (r: Option<Event>)
    requires
        motion.wf(),
    ensures
        r == event_from(body, instant_ms, *best, *motion, *config),
        r matches Some(e) ==> event_wf(e, *config),
{
    let kind = match classify(
        best.separation,
        best.body_radius,
        best.sat_alt,
        best.body_alt,
        best.sat_range_m,
        config,
    ) {
        Some(k) => k,
        None => return None,
    };
    let duration_ms = match kind {
        Kind::Transit => calculate_transit_duration(best.separation, best.body_radius, motion.speed),
        _ => 0,
    };
    let size = satellite_angular_size(config.sat_dimension_m, best.sat_range_m);
    Some(
        Event {
            instant_ms,
            body,
            kind,
            separation: best.separation,
            body_radius: best.body_radius,
            sat_alt: best.sat_alt,
            sat_az: best.sat_az,
            body_alt: best.body_alt,
            speed: motion.speed,
            alt_rate: motion.alt_rate,
            az_rate: motion.az_rate,
            motion_direction: motion.direction,
            duration_ms,
            sat_angular_size_mas: size,
            sat_range_m: best.sat_range_m,
        },
    )
}

/// Two events of one body in `s` are at least `gap` milliseconds apart, in order.
pub open spec fn spaced_by_body(s: Seq<Event>, gap: int) -> bool {
    forall|i: int, j: int|
        0 <= i < j < s.len() && s[i].body == s[j].body ==> s[i].instant_ms + gap
            <= s[j].instant_ms
}

/// Least time between two events of one body: after an event the scan
/// resumes one cooldown later, and the next refinement reaches back at most
/// one refinement window.
pub open spec fn event_gap(config: SearchConfig) -> int {
    config.cooldown_ms - config.refine_window_ms
}

/// Gathers from the sky the samples that `request` asks for.
fn gather_samples<S: GeometrySource>(
    source: &S,
    body: Body,
    first_ms: i64,
    step_ms: i64,
    count: u64,
) -> (r: Vec<Option<Sample>>)
    requires
        0 < step_ms <= 2 * MAX_STEP_MS,
        1 <= count,
        -MAX_INSTANT_MS - 2 * MAX_STEP_MS <= first_ms,
        first_ms + (count - 1) * step_ms <= MAX_INSTANT_MS + 2 * MAX_STEP_MS,
        (count - 1) * step_ms <= 2 * MAX_STEP_MS,
    ensures
        r@.len() == count,
{
    let mut samples: Vec<Option<Sample>> = Vec::new();
    let mut k: u64 = 0;
    while k < count
        invariant
            k <= count,
            samples@.len() == k,
            0 < step_ms <= 2 * MAX_STEP_MS,
            -MAX_INSTANT_MS - 2 * MAX_STEP_MS <= first_ms,
            first_ms + (count - 1) * step_ms <= MAX_INSTANT_MS + 2 * MAX_STEP_MS,
            (count - 1) * step_ms <= 2 * MAX_STEP_MS,
        decreases count - k,
    {
        assert(0 <= k * step_ms <= (count - 1) * step_ms && k <= k * step_ms) by (nonlinear_arith)
            requires
                k <= count - 1,
                0 <= k,
                step_ms >= 1,
        ;
        samples.push(source.sample(body, first_ms + (k as i64) * step_ms));
        k = k + 1;
    }
    samples
}

/// Predicts the transits and close passes of the satellite in front of the
/// Sun and the Moon over the window `[start_ms, end_ms)`.
///
/// This runs a `Scan` to its end, answering each of its requests from
/// `source`; what the search asks for and what it makes of each answer is
/// stated by `Scan`. Whatever the sky answers, the events come back sorted
/// by instant, each well formed and found within one refinement window of
/// the scanned span, and two events of one body lie at least a cooldown less
/// a refinement window apart, so that a pass is reported once.
pub fn predict_transits<S: GeometrySource>(
    source: &S,
    start_ms: i64,
    end_ms: i64,
    config: &SearchConfig,
) -> (r: Vec<Event>)
    requires
        config.wf(),
        -MAX_INSTANT_MS <= start_ms <= MAX_INSTANT_MS,
        -MAX_INSTANT_MS <= end_ms <= MAX_INSTANT_MS,
    ensures
        end_ms <= start_ms ==> r@.len() == 0,
        sorted_by_instant(r@),
        spaced_by_body(r@, event_gap(*config)),
        forall|i: int|
            0 <= i < r@.len() ==> {
                &&& event_wf(#[trigger] r@[i], *config)
                &&& start_ms - config.refine_window_ms <= r@[i].instant_ms
                &&& r@[i].instant_ms < end_ms + config.refine_window_ms
            },
{
    let mut scan = Scan::start(start_ms, end_ms, config);
    let mut events: Vec<Event> = Vec::new();
    while !scan.is_done()
        invariant
            config.wf(),
            scan.wf(*config),
            scan.end_ms == end_ms,
            start_ms <= scan.t_ms,
            end_ms <= start_ms ==> events@.len() == 0 && scan.phase == Phase::Done,
            sorted_by_instant(events@),
            spaced_by_body(events@, event_gap(*config)),
            forall|k: int|
                0 <= k < events@.len() ==> {
                    &&& event_wf(#[trigger] events@[k], *config)
                    &&& start_ms - config.refine_window_ms <= events@[k].instant_ms
                    &&& events@[k].instant_ms < end_ms + config.refine_window_ms
                    &&& events@[k].instant_ms + config.cooldown_ms <= scan.t_ms
                },
        decreases scan.remaining(),
    {
        let (next, mut out) = match scan.request(config) {
            Request::Samples { body, first_ms, step_ms, count } => {
                let samples = gather_samples(source, body, first_ms, step_ms, count);
                scan.on_samples(&samples, config)
            },
            Request::Motion { alt_a, az_a, alt_b, az_b, alt_rate, az_rate } => {
                let arc = source.sky_arc(alt_a, az_a, alt_b, az_b);
                let bearing = source.bearing(alt_rate, az_rate);
                scan.on_motion(arc, bearing, config)
            },
            Request::Finished => {
                assert(false);
                (scan, Vec::new())
            },
        };
        let ghost old_events = events@;
        events.append(&mut out);
        proof {
            assert forall|i: int, j: int|
                0 <= i < j < events@.len() implies events@[i].instant_ms <= events@[j].instant_ms
                && (events@[i].body == events@[j].body ==> events@[i].instant_ms + event_gap(
                *config,
            ) <= events@[j].instant_ms) by {
                if j >= old_events.len() && i < old_events.len() {
                    assert(events@[i] == old_events[i]);
                }
            }
        }
        scan = next;
    }
    let sorted = sort_by_instant(&events);
    assert(sorted@ == events@);
    sorted
}

} // verus!
