use vstd::prelude::*;
use vstd::seq_lib::to_multiset_insert;
use vstd::seq_lib::to_multiset_build;

use crate::classify::Kind;
use crate::units::Body;

verus! {

/// One predicted event, measured at the instant of closest approach.
/// Angles are in microdegrees, rates in microdegrees per second.
#[derive(Clone, Copy, Debug, PartialEq, Eq, Structural)]
pub struct Event {
    /// Instant of closest approach, milliseconds since the Unix epoch.
    pub instant_ms: i64,
    pub body: Body,
    pub kind: Kind,
    /// Smallest angular separation between satellite and body center.
    pub separation: u32,
    /// Apparent angular radius of the body.
    pub body_radius: u32,
    pub sat_alt: i32,
    pub sat_az: i32,
    pub body_alt: i32,
    /// Angular speed of the satellite across the sky.
    pub speed: i64,
    pub alt_rate: i64,
    pub az_rate: i64,
    /// Bearing of the motion on the sky, clockwise from north, in `[0, 360)` degrees.
    pub motion_direction: i64,
    /// Time spent in front of the disk; zero but for transits.
    pub duration_ms: u64,
    /// Angular size of the satellite, in milliarcseconds.
    pub sat_angular_size_mas: u64,
    /// Distance from observer to satellite.
    pub sat_range_m: u64,
}

/// Events in order of instant, earliest first.
pub open spec fn sorted_by_instant(s: Seq<Event>) -> bool {
    forall|i: int, j: int| 0 <= i < j < s.len() ==> s[i].instant_ms <= s[j].instant_ms
}

/// The events of `s` that happen at instant `t`, in their order in `s`.
pub open spec fn at_instant(s: Seq<Event>, t: i64) -> Seq<Event> {
    s.filter(|e: Event| e.instant_ms == t)
}

/// Inserting `e` in front of events that are all later than it adds `e` at
/// the end of the events at its own instant and changes no other instant.
proof fn lemma_at_instant_insert(s: Seq<Event>, j: int, e: Event, t: i64)
    requires
        0 <= j <= s.len(),
        forall|k: int| j <= k < s.len() ==> s[k].instant_ms > e.instant_ms,
    ensures
        at_instant(s.insert(j, e), t) == (if e.instant_ms == t {
            at_instant(s, t).push(e)
        } else {
            at_instant(s, t)
        }),
{
    let pred = |x: Event| x.instant_ms == t;
    let a = s.subrange(0, j);
    let b = s.subrange(j, s.len() as int);
    let one = Seq::<Event>::empty().push(e);
    assert(s =~= a + b);
    assert(s.insert(j, e) =~= a + one + b);
    Seq::filter_distributes_over_add(a, b, pred);
    Seq::filter_distributes_over_add(a + one, b, pred);
    Seq::filter_distributes_over_add(a, one, pred);
    Seq::<Event>::empty().lemma_filter_push(e, pred);
    assert(Seq::<Event>::empty().filter(pred) =~= Seq::<Event>::empty()) by {
        reveal(Seq::filter);
    }
    if e.instant_ms == t {
        assert(b.all(|x: Event| !pred(x)));
        b.lemma_all_neg_filter_empty(pred);
        assert(b.filter(pred) =~= Seq::<Event>::empty());
        assert(a.filter(pred) + one.filter(pred) + b.filter(pred) =~= (a.filter(pred) + b.filter(
            pred,
        )).push(e));
    } else {
        assert(one.filter(pred) =~= Seq::<Event>::empty());
        assert(a.filter(pred) + one.filter(pred) =~= a.filter(pred));
    }
}

/// Sorts events by instant, earliest first; events with equal instants keep
/// their relative order. The result holds exactly the given events.
pub fn sort_by_instant(events: &Vec<Event>) -> (r: Vec<Event>)
    ensures
        sorted_by_instant(r@),
        forall|t: i64| #[trigger] at_instant(r@, t) == at_instant(events@, t),
        r@.to_multiset() == events@.to_multiset(),
        sorted_by_instant(events@) ==> r@ == events@,
{
    let mut out: Vec<Event> = Vec::new();
    let mut i: usize = 0;
    proof {
        assert(events@.subrange(0, 0) =~= Seq::<Event>::empty());
    }
    while i < events.len()
        invariant
            i <= events.len(),
            sorted_by_instant(out@),
            out@.to_multiset() == events@.subrange(0, i as int).to_multiset(),
            forall|t: i64| #[trigger]
                at_instant(out@, t) == at_instant(events@.subrange(0, i as int), t),
            sorted_by_instant(events@) ==> out@ == events@.subrange(0, i as int),
        decreases events.len() - i,
    {
        let e = events[i];
        let mut j: usize = out.len();
        while j > 0 && out[j - 1].instant_ms > e.instant_ms
            invariant
                j <= out.len(),
                forall|k: int| j <= k < out.len() ==> out@[k].instant_ms > e.instant_ms,
            decreases j,
        {
            j = j - 1;
        }
        proof {
            if sorted_by_instant(events@) && j < out.len() {
                assert(out@[out.len() - 1] == events@[i - 1]);
                assert(out@[out.len() - 1].instant_ms > e.instant_ms);
            }
            assert(forall|k: int| 0 <= k < j ==> out@[k].instant_ms <= e.instant_ms) by {
                if j > 0 {
                    assert(out@[j - 1].instant_ms <= e.instant_ms);
                }
            }
            to_multiset_insert(out@, j as int, e);
            to_multiset_build(events@.subrange(0, i as int), e);
            assert(events@.subrange(0, i as int + 1) =~= events@.subrange(0, i as int).push(e));
            assert forall|t: i64|
                #[trigger] at_instant(out@.insert(j as int, e), t) == at_instant(
                    events@.subrange(0, i as int + 1),
                    t,
                ) by {
                lemma_at_instant_insert(out@, j as int, e, t);
                events@.subrange(0, i as int).lemma_filter_push(
                    e,
                    |x: Event| x.instant_ms == t,
                );
            }
        }
        out.insert(j, e);
        proof {
            if sorted_by_instant(events@) {
                assert(out@ =~= events@.subrange(0, i as int + 1));
            }
        }
        i = i + 1;
    }
    proof {
        assert(events@.subrange(0, events.len() as int) =~= events@);
    }
    out
}

} // verus!
