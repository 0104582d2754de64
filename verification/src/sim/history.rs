//! Bounded first-in-first-out histories: the event log, the SINR and latency
//! histories and the position trail all keep only their most recent entries.

use vstd::prelude::*;
use std::collections::VecDeque;

verus! {

broadcast use vstd::std_specs::vecdeque::group_vec_dequeue_axioms;

/// Capacity of the engine's event log.
pub const EVENT_LOG_CAPACITY: usize = 500;

/// Capacity of a mobile's SINR history and of its latency history.
pub const SAMPLE_HISTORY_CAPACITY: usize = 60;

/// Capacity of a mobile's position trail.
pub const TRAIL_CAPACITY: usize = 10;

/// The contents of a history after one push: the oldest entry leaves when the
/// history is full, then the new entry joins at the back.
pub open spec fn bounded_push<T>(s: Seq<T>, item: T, cap: nat) -> Seq<T> {
    if s.len() == cap && s.len() > 0 {
        s.drop_first().push(item)
    } else {
        s.push(item)
    }
}

/// The contents of history `s` after pushing every element of `items`, in order.
pub open spec fn bounded_push_all<T>(s: Seq<T>, items: Seq<T>, cap: nat) -> Seq<T>
    decreases items.len(),
{
    if items.len() == 0 {
        s
    } else {
        bounded_push(bounded_push_all(s, items.drop_last(), cap), items.last(), cap)
    }
}

/// Appends `item` at the back of `buf`, first dropping the front entry when `buf`
/// already holds `cap` entries.
pub fn push_bounded<T>(buf: &mut VecDeque<T>, item: T, cap: usize)
    ensures
        final(buf)@ == bounded_push(old(buf)@, item, cap as nat),
{
    if buf.len() == cap {
        buf.pop_front();
    }
    buf.push_back(item);
}

/// A history that holds at most `cap` entries still holds at most `cap` after a push.
pub proof fn bounded_push_keeps_bound<T>(s: Seq<T>, item: T, cap: nat)
    requires
        cap > 0,
        s.len() <= cap,
    ensures
        bounded_push(s, item, cap).len() <= cap,
        bounded_push(s, item, cap).last() == item,
{
}

/// Starting empty, a history of capacity `cap` holds exactly the last `cap` items
/// pushed into it (all of them while fewer than `cap` were pushed), oldest first.
pub proof fn bounded_history_keeps_latest<T>(items: Seq<T>, cap: nat)
    requires
        cap > 0,
    ensures
        bounded_push_all(Seq::<T>::empty(), items, cap) == items.subrange(
            if items.len() > cap { items.len() - cap } else { 0 },
            items.len() as int,
        ),
    decreases items.len(),
{
    if items.len() > 0 {
        let prev = items.drop_last();
        bounded_history_keeps_latest(prev, cap);
        let n = items.len() as int;
        let lo_prev: int = if prev.len() > cap { prev.len() - cap } else { 0 };
        let lo: int = if n > cap { n - cap } else { 0 };
        let h = prev.subrange(lo_prev, n - 1);
        if h.len() == cap && h.len() > 0 {
            assert(h.drop_first().push(items.last()) =~= items.subrange(lo, n));
        } else {
            assert(h.push(items.last()) =~= items.subrange(lo, n));
        }
    }
}

} // verus!
