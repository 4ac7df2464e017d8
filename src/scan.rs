use vstd::prelude::*;

use crate::classify::{classification, classify, SearchConfig, MAX_STEP_MS};
use crate::engine::{
    event_from,
    event_wf,
    half_steps,
    make_event,
    refine_minimum,
    window_minimum,
    worth_refining,
    worth_refining_spec,
    Motion,
    Sample,
    MAX_INSTANT_MS,
};
use crate::event::{sorted_by_instant, Event};
use crate::motion::{angular_speed, centered_rate, rate_per_second, speed_of};
use crate::units::{normalize_turn, Body, FULL_TURN};

verus! {

/// Where the search of one body at the current coarse instant stands.
#[derive(Clone, Copy, Debug, PartialEq, Eq, Structural)]
pub enum Phase {
    /// Waiting for the coarse sample at the current instant.
    Coarse,
    /// Waiting for the samples of the refinement window around it.
    Refine,
    /// Waiting for the samples one fine step either side of the closest
    /// approach found at `instant_ms`.
    Sides { instant_ms: i64, best: Sample },
    /// Waiting for the arc between the two side positions and the bearing
    /// of the motion.
    Measure {
        instant_ms: i64,
        best: Sample,
        before: Sample,
        after: Sample,
        alt_rate: i64,
        az_rate: i64,
    },
    /// The window is scanned.
    Done,
}

/// What the search needs next from the sky.
#[derive(Clone, Copy, Debug, PartialEq, Eq, Structural)]
pub enum Request {
    /// The geometry of `body` at `first_ms + k * step_ms` for each `k < count`.
    Samples { body: Body, first_ms: i64, step_ms: i64, count: u64 },
    /// The angle between the sky positions (`alt_a`, `az_a`) and (`alt_b`,
    /// `az_b`), and the bearing of a motion with the given rates.
    Motion { alt_a: i32, az_a: i32, alt_b: i32, az_b: i32, alt_rate: i64, az_rate: i64 },
    /// Nothing: the search is over.
    Finished,
}

/// The state of a search over the window `[.., end_ms)`: the current coarse
/// instant, the body being looked at (the Sun first, then the Moon), how far
/// that look has come, and the Sun's event at this instant, if it had one.
#[derive(Clone, Copy, Debug, PartialEq, Eq, Structural)]
pub struct Scan {
    pub t_ms: i64,
    pub end_ms: i64,
    pub body: Body,
    pub phase: Phase,
    pub pending: Option<Event>,
}

/// Up to two events, earliest first.
pub open spec fn in_order(a: Option<Event>, b: Option<Event>) -> Seq<Event> {
    match (a, b) {
        (Some(x), Some(y)) => if x.instant_ms <= y.instant_ms {
            seq![x, y]
        } else {
            seq![y, x]
        },
        (Some(x), None) => seq![x],
        (None, Some(y)) => seq![y],
        (None, None) => Seq::empty(),
    }
}

/// The motion with every rate zero, used when a side cannot be sampled.
pub open spec fn still() -> Motion {
    Motion { speed: 0, alt_rate: 0, az_rate: 0, direction: 0 }
}

impl Scan {
    /// A search of `[start_ms, end_ms)`, at its first coarse instant.
    pub open spec fn initial(start_ms: i64, end_ms: i64) -> Scan {
        Scan {
            t_ms: start_ms,
            end_ms,
            body: Body::Sun,
            phase: if start_ms < end_ms {
                Phase::Coarse
            } else {
                Phase::Done
            },
            pending: None,
        }
    }

    /// The same look with its phase moved on.
    pub open spec fn with_phase(self, phase: Phase) -> Scan {
        Scan { phase, ..self }
    }

    /// Ends the look at the current body with event `e`, if any. After the
    /// Sun comes the Moon at the same instant. After the Moon, the events of
    /// this instant are handed out earliest first, and the scan moves on to
    /// one cooldown after the latest of them, or one coarse step when there
    /// was none.
    pub open spec fn finish(self, e: Option<Event>, config: SearchConfig) -> (Scan, Seq<Event>) {
        if self.body == Body::Sun {
            (Scan { body: Body::Moon, phase: Phase::Coarse, pending: e, ..self }, Seq::empty())
        } else {
            let out = in_order(self.pending, e);
            let next = if out.len() > 0 {
                out.last().instant_ms + config.cooldown_ms
            } else {
                self.t_ms + config.coarse_step_ms
            };
            (
                Scan {
                    t_ms: next as i64,
                    end_ms: self.end_ms,
                    body: Body::Sun,
                    phase: if next < self.end_ms {
                        Phase::Coarse
                    } else {
                        Phase::Done
                    },
                    pending: None,
                },
                out,
            )
        }
    }

    /// What the search asks of the sky in this state.
    pub open spec fn request_spec(self, config: SearchConfig) -> Request {
        match self.phase {
            Phase::Coarse => Request::Samples {
                body: self.body,
                first_ms: self.t_ms,
                step_ms: config.fine_step_ms,
                count: 1,
            },
            Phase::Refine => Request::Samples {
                body: self.body,
                first_ms: (self.t_ms - half_steps(config) * config.fine_step_ms) as i64,
                step_ms: config.fine_step_ms,
                count: (2 * half_steps(config) + 1) as u64,
            },
            Phase::Sides { instant_ms, .. } => Request::Samples {
                body: self.body,
                first_ms: (instant_ms - config.fine_step_ms) as i64,
                step_ms: (2 * config.fine_step_ms) as i64,
                count: 2,
            },
            Phase::Measure { before, after, alt_rate, az_rate, .. } => Request::Motion {
                alt_a: before.sat_alt,
                az_a: before.sat_az,
                alt_b: after.sat_alt,
                az_b: after.sat_az,
                alt_rate,
                az_rate,
            },
            Phase::Done => Request::Finished,
        }
    }

    /// The next state, and the events handed out, once the samples asked
    /// for have come back.
    ///
    /// A coarse sample that earns a refinement leads to the window; the
    /// window's closest approach, when it classifies, leads to the sides;
    /// two valid sides lead to the measurement, and a missing side gives the
    /// event with no motion.
    pub open spec fn after_samples(
        self,
        samples: Seq<Option<Sample>>,
        config: SearchConfig,
    ) -> (Scan, Seq<Event>) {
        match self.phase {
            Phase::Coarse => match samples[0] {
                Some(c) => if worth_refining_spec(c, config) {
                    (self.with_phase(Phase::Refine), Seq::empty())
                } else {
                    self.finish(None, config)
                },
                None => self.finish(None, config),
            },
            Phase::Refine => match window_minimum(self.t_ms as int, samples, config) {
                Some((instant, best)) => if classification(
                    best.separation as int,
                    best.body_radius as int,
                    best.sat_alt as int,
                    best.body_alt as int,
                    best.sat_range_m as int,
                    config,
                ) is Some {
                    (
                        self.with_phase(Phase::Sides { instant_ms: instant as i64, best }),
                        Seq::empty(),
                    )
                } else {
                    self.finish(None, config)
                },
                None => self.finish(None, config),
            },
            Phase::Sides { instant_ms, best } => match (samples[0], samples[1]) {
                (Some(b), Some(a)) => (
                    self.with_phase(
                        Phase::Measure {
                            instant_ms,
                            best,
                            before: b,
                            after: a,
                            alt_rate: centered_rate(
                                b.sat_alt as int,
                                a.sat_alt as int,
                                config.fine_step_ms as int,
                            ) as i64,
                            az_rate: centered_rate(
                                b.sat_az as int,
                                a.sat_az as int,
                                config.fine_step_ms as int,
                            ) as i64,
                        },
                    ),
                    Seq::empty(),
                ),
                _ => self.finish(event_from(self.body, instant_ms, best, still(), config), config),
            },
            _ => (self, Seq::empty()),
        }
    }

    /// The next state, and the events handed out, once the arc between the
    /// side positions and the bearing of the motion have come back: the
    /// event is measured with the speed over the arc and the bearing brought
    /// into one turn.
    pub open spec fn after_motion(self, arc: u32, bearing: i64, config: SearchConfig) -> (
        Scan,
        Seq<Event>,
    ) {
        match self.phase {
            Phase::Measure { instant_ms, best, alt_rate, az_rate, .. } => self.finish(
                event_from(
                    self.body,
                    instant_ms,
                    best,
                    Motion {
                        speed: speed_of(arc as int, config.fine_step_ms as int) as i64,
                        alt_rate,
                        az_rate,
                        direction: (bearing % FULL_TURN) as i64,
                    },
                    config,
                ),
                config,
            ),
            _ => (self, Seq::empty()),
        }
    }

    /// The states a search passes through: the instants stay in range, an
    /// unfinished search stands before the end of its window, a closest
    /// approach in hand lies within one window of the current instant and
    /// classifies, and the Sun's event of this instant is well formed and
    /// lies within one window of it.
    pub open spec fn wf(self, config: SearchConfig) -> bool {
        &&& -MAX_INSTANT_MS <= self.end_ms <= MAX_INSTANT_MS
        &&& -MAX_INSTANT_MS <= self.t_ms <= MAX_INSTANT_MS + 2 * MAX_STEP_MS
        &&& self.phase != Phase::Done ==> self.t_ms < self.end_ms
        &&& match self.phase {
            Phase::Sides { instant_ms, best } => self.closest_in_hand(instant_ms, best, config),
            Phase::Measure { instant_ms, best, .. } => self.closest_in_hand(
                instant_ms,
                best,
                config,
            ),
            _ => true,
        }
        &&& match self.pending {
            Some(e) => {
                &&& self.body == Body::Moon
                &&& e.body == Body::Sun
                &&& event_wf(e, config)
                &&& self.t_ms - config.refine_window_ms <= e.instant_ms
                &&& e.instant_ms <= self.t_ms + config.refine_window_ms
            },
            None => true,
        }
    }

    /// A closest approach at `instant_ms` near the current instant whose
    /// sample classifies.
    pub open spec fn closest_in_hand(self, instant_ms: i64, best: Sample, config: SearchConfig) -> bool {
        &&& self.t_ms - config.refine_window_ms <= instant_ms <= self.t_ms + config.refine_window_ms
        &&& classification(
            best.separation as int,
            best.body_radius as int,
            best.sat_alt as int,
            best.body_alt as int,
            best.sat_range_m as int,
            config,
        ) is Some
    }

    /// How much work is left, for termination: it shrinks with every reply.
    pub open spec fn remaining(self) -> int {
        if self.phase == Phase::Done {
            0
        } else {
            (self.end_ms - self.t_ms) * 16 + (if self.body == Body::Sun {
                5int
            } else {
                0int
            }) + match self.phase {
                Phase::Coarse => 4int,
                Phase::Refine => 3int,
                Phase::Sides { .. } => 2int,
                Phase::Measure { .. } => 1int,
                Phase::Done => 0int,
            }
        }
    }

    /// What a step hands out and where it leaves the search: the events are
    /// well formed, earliest first, of distinct bodies and within one window
    /// of the instant they were found at; the instant never goes back, and
    /// after events it stands at least one cooldown past each of them.
    pub open spec fn step_ok(self, next: Scan, out: Seq<Event>, config: SearchConfig) -> bool {
        &&& next.wf(config)
        &&& next.end_ms == self.end_ms
        &&& next.remaining() < self.remaining()
        &&& self.t_ms <= next.t_ms
        &&& out.len() <= 2
        &&& sorted_by_instant(out)
        &&& out.len() == 2 ==> out[0].body != out[1].body
        &&& forall|k: int|
            0 <= k < out.len() ==> {
                &&& event_wf(#[trigger] out[k], config)
                &&& self.t_ms - config.refine_window_ms <= out[k].instant_ms
                &&& out[k].instant_ms <= self.t_ms + config.refine_window_ms
                &&& out[k].instant_ms + config.cooldown_ms <= next.t_ms
            }
    }
}

/// Ending a look keeps the search well formed and moving.
pub proof fn lemma_finish(s: Scan, e: Option<Event>, config: SearchConfig)
    requires
        config.wf(),
        s.wf(config),
        s.phase != Phase::Done,
        e matches Some(x) ==> {
            &&& event_wf(x, config)
            &&& x.body == s.body
            &&& s.t_ms - config.refine_window_ms <= x.instant_ms
            &&& x.instant_ms <= s.t_ms + config.refine_window_ms
        },
    ensures
        s.step_ok(s.finish(e, config).0, s.finish(e, config).1, config),
{
    let (next, out) = s.finish(e, config);
    if s.body == Body::Moon {
        assert(out.len() == 2 ==> out[0].body != out[1].body);
        assert forall|k: int| 0 <= k < out.len() implies {
            &&& event_wf(#[trigger] out[k], config)
            &&& s.t_ms - config.refine_window_ms <= out[k].instant_ms
            &&& out[k].instant_ms <= s.t_ms + config.refine_window_ms
            &&& out[k].instant_ms + config.cooldown_ms <= next.t_ms
        } by {
            assert(out[k].instant_ms <= out.last().instant_ms);
        }
    }
}

impl Scan {
    /// Whether the reply to this state's request is `n` samples.
    pub open spec fn awaits_samples(self, config: SearchConfig, n: int) -> bool {
        match self.request_spec(config) {
            Request::Samples { count, .. } => n == count,
            _ => false,
        }
    }

    /// Starts a search of `[start_ms, end_ms)`.
    pub fn start(start_ms: i64, end_ms: i64, config: &SearchConfig) -> (r: Scan)
        requires
            -MAX_INSTANT_MS <= start_ms <= MAX_INSTANT_MS,
            -MAX_INSTANT_MS <= end_ms <= MAX_INSTANT_MS,
        ensures
            r == Scan::initial(start_ms, end_ms),
            r.wf(*config),
    {
        Scan {
            t_ms: start_ms,
            end_ms,
            body: Body::Sun,
            phase: if start_ms < end_ms {
                Phase::Coarse
            } else {
                Phase::Done
            },
            pending: None,
        }
    }

    /// Whether the window is scanned.
    pub fn is_done(&self) -> (r: bool)
        ensures
            r == (self.phase == Phase::Done),
    {
        match self.phase {
            Phase::Done => true,
            _ => false,
        }
    }

    /// What the search asks of the sky next.
    pub fn request(&self, config: &SearchConfig) -> (r: Request)
        requires
            config.wf(),
            self.wf(*config),
        ensures
            r == self.request_spec(*config),
            r matches Request::Samples { first_ms, step_ms, count, .. } ==> {
                &&& 0 < step_ms <= 2 * MAX_STEP_MS
                &&& 1 <= count
                &&& -MAX_INSTANT_MS - 2 * MAX_STEP_MS <= first_ms
                &&& first_ms + (count - 1) * step_ms <= MAX_INSTANT_MS + 2 * MAX_STEP_MS
                &&& (count - 1) * step_ms <= 2 * MAX_STEP_MS
            },
    {
        let step = config.fine_step_ms;
        match self.phase {
            Phase::Coarse => {
                assert((1 - 1) * step == 0);
                Request::Samples { body: self.body, first_ms: self.t_ms, step_ms: step, count: 1 }
            },
            Phase::Refine => {
                let n = config.refine_window_ms / step;
                assert(n * step <= config.refine_window_ms && 0 <= n <= config.refine_window_ms)
                    by (nonlinear_arith)
                    requires
                        n == config.refine_window_ms / step,
                        step > 0,
                        config.refine_window_ms >= 0,
                ;
                assert((2 * n + 1 - 1) * step == 2 * (n * step)) by (nonlinear_arith);
                Request::Samples {
                    body: self.body,
                    first_ms: self.t_ms - n * step,
                    step_ms: step,
                    count: (2 * n + 1) as u64,
                }
            },
            Phase::Sides { instant_ms, .. } => {
                assert((2 - 1) * (2 * step) == 2 * step);
                Request::Samples {
                    body: self.body,
                    first_ms: instant_ms - step,
                    step_ms: 2 * step,
                    count: 2,
                }
            },
            Phase::Measure { before, after, alt_rate, az_rate, .. } => Request::Motion {
                alt_a: before.sat_alt,
                az_a: before.sat_az,
                alt_b: after.sat_alt,
                az_b: after.sat_az,
                alt_rate,
                az_rate,
            },
            Phase::Done => Request::Finished,
        }
    }

    /// Ends the look at the current body with event `e`, if any.
    fn finish_look(&self, e: Option<Event>, config: &SearchConfig) -> (r: (Scan, Vec<Event>))
        requires
            config.wf(),
            self.wf(*config),
            self.phase != Phase::Done,
            e matches Some(x) ==> {
                &&& event_wf(x, *config)
                &&& x.body == self.body
                &&& self.t_ms - config.refine_window_ms <= x.instant_ms
                &&& x.instant_ms <= self.t_ms + config.refine_window_ms
            },
        ensures
            (r.0, r.1@) == self.finish(e, *config),
            self.step_ok(r.0, r.1@, *config),
    {
        proof {
            lemma_finish(*self, e, *config);
        }
        match self.body {
            Body::Sun => (
                Scan {
                    t_ms: self.t_ms,
                    end_ms: self.end_ms,
                    body: Body::Moon,
                    phase: Phase::Coarse,
                    pending: e,
                },
                Vec::new(),
            ),
            Body::Moon => {
                let mut out: Vec<Event> = Vec::new();
                match (self.pending, e) {
                    (Some(x), Some(y)) => {
                        if x.instant_ms <= y.instant_ms {
                            out.push(x);
                            out.push(y);
                        } else {
                            out.push(y);
                            out.push(x);
                        }
                    },
                    (Some(x), None) => {
                        out.push(x);
                    },
                    (None, Some(y)) => {
                        out.push(y);
                    },
                    (None, None) => {},
                }
                assert(out@ =~= in_order(self.pending, e));
                let next = if out.len() > 0 {
                    out[out.len() - 1].instant_ms + config.cooldown_ms
                } else {
                    self.t_ms + config.coarse_step_ms
                };
                let phase = if next < self.end_ms {
                    Phase::Coarse
                } else {
                    Phase::Done
                };
                (Scan { t_ms: next, end_ms: self.end_ms, body: Body::Sun, phase, pending: None }, out)
            },
        }
    }

    /// Takes in the samples asked for and moves the search on.
    pub fn on_samples(&self, samples: &Vec<Option<Sample>>, config: &SearchConfig) -> (r: (
        Scan,
        Vec<Event>,
    ))
        requires
            config.wf(),
            self.wf(*config),
            self.awaits_samples(*config, samples@.len() as int),
        ensures
            (r.0, r.1@) == self.after_samples(samples@, *config),
            self.step_ok(r.0, r.1@, *config),
    {
        let h = config.fine_step_ms;
        match self.phase {
            Phase::Coarse => match samples[0] {
                Some(c) => {
                    if worth_refining(&c, config) {
                        let next = Scan { phase: Phase::Refine, ..*self };
                        (next, Vec::new())
                    } else {
                        self.finish_look(None, config)
                    }
                },
                None => self.finish_look(None, config),
            },
            Phase::Refine => match refine_minimum(self.t_ms, samples, config) {
                Some((instant, best)) => {
                    match classify(
                        best.separation,
                        best.body_radius,
                        best.sat_alt,
                        best.body_alt,
                        best.sat_range_m,
                        config,
                    ) {
                        Some(_) => {
                            let next = Scan {
                                phase: Phase::Sides { instant_ms: instant, best },
                                ..*self
                            };
                            (next, Vec::new())
                        },
                        None => self.finish_look(None, config),
                    }
                },
                None => self.finish_look(None, config),
            },
            Phase::Sides { instant_ms, best } => match (samples[0], samples[1]) {
                (Some(b), Some(a)) => {
                    let next = Scan {
                        phase: Phase::Measure {
                            instant_ms,
                            best,
                            before: b,
                            after: a,
                            alt_rate: rate_per_second(b.sat_alt, a.sat_alt, h),
                            az_rate: rate_per_second(b.sat_az, a.sat_az, h),
                        },
                        ..*self
                    };
                    (next, Vec::new())
                },
                _ => {
                    let motion = Motion { speed: 0, alt_rate: 0, az_rate: 0, direction: 0 };
                    let e = make_event(self.body, instant_ms, &best, &motion, config);
                    self.finish_look(e, config)
                },
            },
            _ => (*self, Vec::new()),
        }
    }

    /// Takes in the arc between the side positions and the bearing of the
    /// motion, measures the event and moves the search on.
    pub fn on_motion(&self, arc: u32, bearing: i64, config: &SearchConfig) -> (r: (
        Scan,
        Vec<Event>,
    ))
        requires
            config.wf(),
            self.wf(*config),
            self.phase is Measure,
        ensures
            (r.0, r.1@) == self.after_motion(arc, bearing, *config),
            self.step_ok(r.0, r.1@, *config),
    {
        match self.phase {
            Phase::Measure { instant_ms, best, alt_rate, az_rate, .. } => {
                let motion = Motion {
                    speed: angular_speed(arc, config.fine_step_ms),
                    alt_rate,
                    az_rate,
                    direction: normalize_turn(bearing),
                };
                let e = make_event(self.body, instant_ms, &best, &motion, config);
                self.finish_look(e, config)
            },
            _ => (*self, Vec::new()),
        }
    }
}

} // verus!
