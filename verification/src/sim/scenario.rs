//! Scenario scripting — events injected into a run at specific ticks.

use vstd::prelude::*;
use vstd::multiset::Multiset;

verus! {

broadcast use vstd::seq_lib::group_seq_properties;

/// The kind of event that a scenario can inject.
#[derive(Debug, Clone, Copy, PartialEq, Eq, Structural)]
pub enum ScenarioEventKind {
    /// Take a base station offline.
    TowerFailure { base_id: u32 },
    /// Restore a previously offline base station.
    TowerRestore { base_id: u32 },
    /// Inject a burst of new mobile terminals.
    MobileSurge { count: u32 },
}

/// A single event scheduled to fire at a specific tick.
#[derive(Debug, Clone, Copy, PartialEq, Eq, Structural)]
pub struct ScheduledEvent {
    /// Tick at which this event fires.
    pub tick: u64,
    /// What to do when the tick arrives.
    pub kind: ScenarioEventKind,
}

/// A collection of scheduled events that make up a simulation scenario.
#[derive(Debug, Clone, Default)]
pub struct Scenario {
    /// Human-readable scenario name.
    pub name: String,
    /// Optional description of what this scenario tests.
    pub description: String,
    /// Ordered list of events (sorted by tick at load time).
    pub events: Vec<ScheduledEvent>,
}

/// The predicate "fires at tick `t`".
pub open spec fn fires_at(t: u64) -> spec_fn(ScheduledEvent) -> bool {
    |e: ScheduledEvent| e.tick == t
}

/// The events of `s` that fire at tick `t`, in the order in which `s` holds them.
pub open spec fn events_firing_at(s: Seq<ScheduledEvent>, t: u64) -> Seq<ScheduledEvent> {
    s.filter(fires_at(t))
}

/// Whether `s` is ordered by non-decreasing tick.
pub open spec fn sorted_by_tick(s: Seq<ScheduledEvent>) -> bool {
    forall|i: int, j: int| 0 <= i <= j < s.len() ==> s[i].tick <= s[j].tick
}

/// `r` is `s` stably sorted by tick: ordered by tick, and for every tick the events
/// that fire then come in the same order in both.
pub open spec fn stably_sorted_by_tick(s: Seq<ScheduledEvent>, r: Seq<ScheduledEvent>) -> bool {
    &&& r.len() == s.len()
    &&& sorted_by_tick(r)
    &&& forall|t: u64| #[trigger] events_firing_at(r, t) == events_firing_at(s, t)
}

/// Filtering a concatenation is the concatenation of the filters.
proof fn lemma_filter_concat(a: Seq<ScheduledEvent>, b: Seq<ScheduledEvent>, t: u64)
    ensures
        (a + b).filter(fires_at(t)) == a.filter(fires_at(t)) + b.filter(fires_at(t)),
{
    Seq::filter_distributes_over_add(a, b, fires_at(t));
}

/// A sequence none of whose events fire at `t` filters to nothing.
proof fn lemma_filter_none(a: Seq<ScheduledEvent>, t: u64)
    requires
        forall|i: int| 0 <= i < a.len() ==> a[i].tick != t,
    ensures
        a.filter(fires_at(t)) == Seq::<ScheduledEvent>::empty(),
    decreases a.len(),
{
    reveal_with_fuel(Seq::filter, 1);
    if a.len() > 0 {
        lemma_filter_none(a.drop_last(), t);
    }
}

/// Inserting `e` into the sorted sequence `r` just before the first event with a
/// later tick keeps `r` sorted and adds `e` at the end of the events of its own tick.
proof fn lemma_insert_sorted(r: Seq<ScheduledEvent>, p: int, e: ScheduledEvent)
    requires
        sorted_by_tick(r),
        0 <= p <= r.len(),
        forall|i: int| 0 <= i < p ==> r[i].tick <= e.tick,
        forall|i: int| p <= i < r.len() ==> r[i].tick > e.tick,
    ensures
        sorted_by_tick(r.insert(p, e)),
        forall|t: u64| #[trigger] events_firing_at(r.insert(p, e), t) == if t == e.tick {
            events_firing_at(r, t).push(e)
        } else {
            events_firing_at(r, t)
        },
{
    let a = r.subrange(0, p);
    let b = r.subrange(p, r.len() as int);
    assert(r =~= a + b);
    assert(r.insert(p, e) =~= a.push(e) + b);
    assert forall|t: u64| #[trigger] events_firing_at(r.insert(p, e), t) == if t == e.tick {
        events_firing_at(r, t).push(e)
    } else {
        events_firing_at(r, t)
    } by {
        lemma_filter_concat(a.push(e), b, t);
        lemma_filter_concat(a, b, t);
        a.lemma_filter_push(e, fires_at(t));
        if t == e.tick {
            lemma_filter_none(b, t);
            assert(b.filter(fires_at(t)) =~= Seq::<ScheduledEvent>::empty());
            assert(a.filter(fires_at(t)).push(e) + Seq::<ScheduledEvent>::empty() =~= (a.filter(
                fires_at(t),
            ) + Seq::<ScheduledEvent>::empty()).push(e));
        }
    }
}

impl Scenario {
    /// Returns the events scheduled at exactly `tick`, in scenario order.
    pub fn events_at(&self, tick: u64) -> (r: Vec<&ScenarioEventKind>)
        ensures
            r@.len() == events_firing_at(self.events@, tick).len(),
            forall|i: int| 0 <= i < r@.len() ==> *r@[i] == events_firing_at(self.events@, tick)[i].kind,
    {
        let mut r: Vec<&ScenarioEventKind> = Vec::new();
        let n = self.events.len();
        let mut i: usize = 0;
        while i < n
            invariant
                n == self.events@.len(),
                0 <= i <= n,
                r@.len() == events_firing_at(self.events@.take(i as int), tick).len(),
                forall|k: int|
                    0 <= k < r@.len() ==> *r@[k] == events_firing_at(self.events@.take(i as int), tick)[k].kind,
            decreases n - i,
        {
            proof {
                assert(self.events@.take(i as int + 1) =~= self.events@.take(i as int).push(self.events@[i as int]));
                self.events@.take(i as int).lemma_filter_push(self.events@[i as int], fires_at(tick));
            }
            let e = &self.events[i];
            if e.tick == tick {
                r.push(&e.kind);
            }
            i = i + 1;
        }
        proof {
            assert(self.events@.take(n as int) =~= self.events@);
        }
        r
    }

    /// Orders the events by tick, keeping the file order of events that share a tick
    /// (a stable sort, as loading a scenario file does).
    pub fn sort_events_by_tick(&mut self)
        ensures
            stably_sorted_by_tick(old(self).events@, final(self).events@),
            final(self).events@.to_multiset() == old(self).events@.to_multiset(),
            final(self).name == old(self).name,
            final(self).description == old(self).description,
    {
        let ghost orig = self.events@;
        let mut rest: Vec<ScheduledEvent> = Vec::new();
        std::mem::swap(&mut rest, &mut self.events);
        let mut sorted: Vec<ScheduledEvent> = Vec::new();
        let n = rest.len();
        let mut k: usize = 0;
        while k < n
            invariant
                n == orig.len(),
                0 <= k <= n,
                rest@ == orig.subrange(k as int, n as int),
                sorted@.len() == k,
                sorted_by_tick(sorted@),
                forall|t: u64| #[trigger] events_firing_at(sorted@, t) == events_firing_at(orig.take(k as int), t),
            decreases n - k,
        {
            let e = rest.remove(0);
            assert(e == orig[k as int]);
            // First position whose tick is later than e's.
            let mut p: usize = 0;
            while p < sorted.len() && sorted[p].tick <= e.tick
                invariant
                    0 <= p <= sorted@.len(),
                    forall|i: int| 0 <= i < p ==> sorted@[i].tick <= e.tick,
                decreases sorted@.len() - p,
            {
                p = p + 1;
            }
            proof {
                assert forall|i: int| p <= i < sorted@.len() implies sorted@[i].tick > e.tick by {
                    assert(sorted@[p as int].tick > e.tick);
                }
                lemma_insert_sorted(sorted@, p as int, e);
                assert(orig.take(k as int + 1) =~= orig.take(k as int).push(e));
                assert forall|t: u64| #[trigger] events_firing_at(sorted@.insert(p as int, e), t)
                    == events_firing_at(orig.take(k as int + 1), t) by {
                    orig.take(k as int).lemma_filter_push(e, fires_at(t));
                }
            }
            sorted.insert(p, e);
            k = k + 1;
            assert(rest@ =~= orig.subrange(k as int, n as int));
        }
        proof {
            assert(orig.take(n as int) =~= orig);
            sorting_is_a_permutation(orig, sorted@);
        }
        self.events = sorted;
    }
}

/// An event occurs in `s` as often as it occurs among the events of `s` that fire
/// at its tick.
proof fn lemma_count_through_tick(s: Seq<ScheduledEvent>, x: ScheduledEvent)
    ensures
        s.to_multiset().count(x) == events_firing_at(s, x.tick).to_multiset().count(x),
    decreases s.len(),
{
    broadcast use vstd::seq_lib::to_multiset_build;
    broadcast use vstd::multiset::group_multiset_axioms;

    if s.len() == 0 {
        assert(events_firing_at(s, x.tick) =~= Seq::<ScheduledEvent>::empty());
        assert(s.to_multiset() =~= Multiset::<ScheduledEvent>::empty()) by {
            s.to_multiset_ensures();
        }
        assert(events_firing_at(s, x.tick).to_multiset() =~= Multiset::<ScheduledEvent>::empty()) by {
            events_firing_at(s, x.tick).to_multiset_ensures();
        }
    } else {
        let init = s.drop_last();
        let l = s.last();
        lemma_count_through_tick(init, x);
        assert(s =~= init.push(l));
        init.lemma_filter_push(l, fires_at(x.tick));
    }
}

/// Sorting loses and invents no event: a stable sort by tick of `s` holds every
/// event of `s` exactly as many times as `s` does.
pub proof fn sorting_is_a_permutation(s: Seq<ScheduledEvent>, r: Seq<ScheduledEvent>)
    requires
        stably_sorted_by_tick(s, r),
    ensures
        r.to_multiset() == s.to_multiset(),
{
    assert forall|x: ScheduledEvent| #[trigger] r.to_multiset().count(x) == s.to_multiset().count(x) by {
        lemma_count_through_tick(r, x);
        lemma_count_through_tick(s, x);
        assert(events_firing_at(r, x.tick) == events_firing_at(s, x.tick));
    }
    assert(r.to_multiset() =~= s.to_multiset());
}

} // verus!
