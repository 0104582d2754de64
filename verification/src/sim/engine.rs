//! The bookkeeping of one simulation tick that involves no radio arithmetic:
//! applying handoff decisions, tracking SLA state, allocating mobile identities,
//! rebuilding per-cell connection lists and recording events.

use vstd::prelude::*;
use vstd::string::*;
use std::collections::VecDeque;
use crate::config::radio::TrafficProfile;
use crate::sim::history::{bounded_push, push_bounded, EVENT_LOG_CAPACITY};
use crate::sim::protocol::HandoffDecision;
use crate::sim::scenario::ScenarioEventKind;
use crate::sim::snapshot::{SimEvent, SimEventType};
use crate::text::{decimal, decimal_string};

verus! {

broadcast use vstd::seq_lib::group_seq_properties;

// ---------------------------------------------------------------------------
// Event log
// ---------------------------------------------------------------------------

/// Appends `event` to the engine's event log, dropping the oldest event once the
/// log holds `EVENT_LOG_CAPACITY` (500) events.
pub fn push_event(events: &mut VecDeque<SimEvent>, event: SimEvent)
    ensures
        final(events)@ == bounded_push(old(events)@, event, EVENT_LOG_CAPACITY as nat),
{
    push_bounded(events, event, EVENT_LOG_CAPACITY);
}

// ---------------------------------------------------------------------------
// Mobile identities
// ---------------------------------------------------------------------------

/// The traffic profile of the mobile with identifier `id`: profiles are dealt
/// round-robin in the order VideoStream, CloudGaming, VoiceCall, Idle, WebBrowse.
pub open spec fn spec_profile_for_id(id: nat) -> TrafficProfile {
    let k = id % 5;
    if k == 0 {
        TrafficProfile::VideoStream
    } else if k == 1 {
        TrafficProfile::CloudGaming
    } else if k == 2 {
        TrafficProfile::VoiceCall
    } else if k == 3 {
        TrafficProfile::Idle
    } else {
        TrafficProfile::WebBrowse
    }
}

/// The traffic profile assigned to a mobile when it is created.
pub fn profile_for_id(id: u32) -> (p: TrafficProfile)
    ensures
        p == spec_profile_for_id(id as nat),
        p == seq![
            TrafficProfile::VideoStream,
            TrafficProfile::CloudGaming,
            TrafficProfile::VoiceCall,
            TrafficProfile::Idle,
            TrafficProfile::WebBrowse,
        ][(id % 5) as int],
{
    let profiles: [TrafficProfile; 5] = [
        TrafficProfile::VideoStream,
        TrafficProfile::CloudGaming,
        TrafficProfile::VoiceCall,
        TrafficProfile::Idle,
        TrafficProfile::WebBrowse,
    ];
    profiles[(id % 5) as usize]
}

/// Profiles are dealt round-robin over the whole identifier range: the mobile with
/// identifier `id` gets the `(id mod 5)`-th of VideoStream, CloudGaming, VoiceCall,
/// Idle and WebBrowse, so five consecutive identifiers get all five profiles and
/// identifiers five apart get the same one.
pub proof fn profiles_are_dealt_round_robin(id: nat)
    ensures
        spec_profile_for_id(id) == seq![
            TrafficProfile::VideoStream,
            TrafficProfile::CloudGaming,
            TrafficProfile::VoiceCall,
            TrafficProfile::Idle,
            TrafficProfile::WebBrowse,
        ][(id % 5) as int],
        spec_profile_for_id(id + 5) == spec_profile_for_id(id),
        spec_profile_for_id(id) != spec_profile_for_id(id + 1),
        spec_profile_for_id(id) != spec_profile_for_id(id + 2),
        spec_profile_for_id(id) != spec_profile_for_id(id + 3),
        spec_profile_for_id(id) != spec_profile_for_id(id + 4),
{
    assert((id + 5) % 5 == id % 5);
}

/// The rendering colour slot of the mobile with identifier `id` (`id % 8`).
pub fn color_slot(id: u32) -> (slot: u8)
    ensures
        slot == id % 8,
{
    (id % 8) as u8
}

/// Takes the next free mobile identifier, returning it with the profile the new
/// mobile receives, and advances the counter.
pub fn next_mobile_identity(next_mobile_id: &mut u32) -> (r: (u32, TrafficProfile))
    requires
        *old(next_mobile_id) < u32::MAX,
    ensures
        r.0 == *old(next_mobile_id),
        r.1 == spec_profile_for_id(r.0 as nat),
        r.1 == seq![
            TrafficProfile::VideoStream,
            TrafficProfile::CloudGaming,
            TrafficProfile::VoiceCall,
            TrafficProfile::Idle,
            TrafficProfile::WebBrowse,
        ][(r.0 % 5) as int],
        *final(next_mobile_id) == *old(next_mobile_id) + 1,
{
    let id = *next_mobile_id;
    *next_mobile_id = id + 1;
    (id, profile_for_id(id))
}

// ---------------------------------------------------------------------------
// Handoff decisions
// ---------------------------------------------------------------------------

/// Whether applying `d` to a mobile whose active set is `active` performs a handoff
/// (and so counts one attempt and one success).
pub open spec fn performs_handoff(d: HandoffDecision, active: Seq<u32>) -> bool {
    match d {
        HandoffDecision::HandoffTo { .. } => true,
        HandoffDecision::ConditionalExecute { .. } => true,
        HandoffDecision::SoftAdd { add_id } => !active.contains(add_id),
        _ => false,
    }
}

/// Whether applying `decision` to a mobile with active set `active_set` performs a
/// handoff: a hard or conditional-execute handoff always does, a soft add does when
/// the cell is not yet in the active set.
pub fn decision_performs_handoff(decision: &HandoffDecision, active_set: &Vec<u32>) -> (b: bool)
    ensures
        b == performs_handoff(*decision, active_set@),
{
    match *decision {
        HandoffDecision::HandoffTo { .. } => true,
        HandoffDecision::ConditionalExecute { .. } => true,
        HandoffDecision::SoftAdd { add_id } => {
            let mut present = false;
            let n = active_set.len();
            let mut i: usize = 0;
            while i < n
                invariant
                    n == active_set@.len(),
                    0 <= i <= n,
                    present <==> active_set@.take(i as int).contains(add_id),
                decreases n - i,
            {
                proof {
                    assert(active_set@.take(i as int + 1) =~= active_set@.take(i as int).push(active_set@[i as int]));
                }
                if active_set[i] == add_id {
                    present = true;
                }
                i = i + 1;
            }
            proof {
                assert(active_set@.take(n as int) =~= active_set@);
            }
            !present
        },
        _ => false,
    }
}

/// The serving cell after applying `d`.
pub open spec fn serving_after(d: HandoffDecision, serving: Option<u32>) -> Option<u32> {
    match d {
        HandoffDecision::HandoffTo { target_id } => Some(target_id),
        HandoffDecision::ConditionalExecute { target_id } => Some(target_id),
        _ => serving,
    }
}

/// The predicate "is not `id`".
pub open spec fn is_not(id: u32) -> spec_fn(u32) -> bool {
    |x: u32| x != id
}

/// The active set after applying `d`.
pub open spec fn active_set_after(d: HandoffDecision, active: Seq<u32>) -> Seq<u32> {
    match d {
        HandoffDecision::SoftAdd { add_id } => if active.contains(add_id) {
            active
        } else {
            active.push(add_id)
        },
        HandoffDecision::SoftRemove { remove_id } => active.filter(is_not(remove_id)),
        _ => active,
    }
}

/// How a serving cell is named in a handoff event: `#id`, or `none`.
pub open spec fn cell_text(cell: Option<u32>) -> Seq<char> {
    match cell {
        Some(id) => "#"@ + decimal(id as nat),
        None => "none"@,
    }
}

/// The detail line of a handoff event: `Mobile #m: <old> → #t`, with `CHO ` before
/// the old cell for a conditional handoff.
pub open spec fn handoff_detail(mobile_id: u32, old: Option<u32>, target: u32, conditional: bool) -> Seq<char> {
    "Mobile #"@ + decimal(mobile_id as nat) + (if conditional { ": CHO "@ } else { ": "@ }) + cell_text(old)
        + " → #"@ + decimal(target as nat)
}

/// Whether `e` is the event that records mobile `mobile_id` handing off from `old`
/// to `target` at `tick`.
pub open spec fn is_handoff_event(e: SimEvent, tick: u64, mobile_id: u32, old: Option<u32>, target: u32, conditional: bool) -> bool {
    &&& e.tick == tick
    &&& e.mobile_id == mobile_id
    &&& e.event_type == SimEventType::HandoffSuccess
    &&& e.detail@ == handoff_detail(mobile_id, old, target, conditional)
}

fn cell_string(cell: Option<u32>) -> (s: String)
    ensures
        s@ == cell_text(cell),
{
    match cell {
        Some(id) => {
            let mut s = String::from_str("#");
            let num = decimal_string(id as u64);
            s.append(num.as_str());
            s
        },
        None => String::from_str("none"),
    }
}

fn handoff_event(tick: u64, mobile_id: u32, old: Option<u32>, target: u32, conditional: bool) -> (e: SimEvent)
    ensures
        is_handoff_event(e, tick, mobile_id, old, target, conditional),
{
    let mut detail = String::from_str("Mobile #");
    let m = decimal_string(mobile_id as u64);
    detail.append(m.as_str());
    if conditional {
        detail.append(": CHO ");
    } else {
        detail.append(": ");
    }
    let c = cell_string(old);
    detail.append(c.as_str());
    detail.append(" → #");
    let t = decimal_string(target as u64);
    detail.append(t.as_str());
    SimEvent { tick, mobile_id, event_type: SimEventType::HandoffSuccess, detail }
}

/// How much one decision adds to each handoff counter: one for a handoff performed,
/// else nothing.
pub open spec fn handoff_increment(d: HandoffDecision, active: Seq<u32>) -> int {
    if performs_handoff(d, active) {
        1
    } else {
        0
    }
}

/// Removes every occurrence of `id` from `v`, keeping the order of the rest.
fn remove_all(v: &Vec<u32>, id: u32) -> (r: Vec<u32>)
    ensures
        r@ == v@.filter(is_not(id)),
{
    let mut r: Vec<u32> = Vec::new();
    let n = v.len();
    let mut i: usize = 0;
    while i < n
        invariant
            n == v@.len(),
            0 <= i <= n,
            r@ == v@.take(i as int).filter(is_not(id)),
        decreases n - i,
    {
        proof {
            assert(v@.take(i as int + 1) =~= v@.take(i as int).push(v@[i as int]));
            v@.take(i as int).lemma_filter_push(v@[i as int], is_not(id));
        }
        if v[i] != id {
            r.push(v[i]);
        }
        i = i + 1;
    }
    proof {
        assert(v@.take(n as int) =~= v@);
    }
    r
}

/// Applies one protocol decision to a mobile's radio attachment and to the run's
/// handoff counters, returning the event to record, if any.
///
/// A hard or conditional-execute handoff moves the serving cell and records a
/// `HandoffSuccess` event; a soft add joins the active set (once); a soft remove
/// drops the cell from the active set; staying or preparing changes nothing.
/// Every handoff performed counts one attempt and one success.
pub fn apply_handoff_decision(
    decision: &HandoffDecision,
    tick: u64,
    mobile_id: u32,
    serving_cell: &mut Option<u32>,
    active_set: &mut Vec<u32>,
    handoff_count: &mut u32,
    handoff_attempts: &mut u64,
    handoff_successes: &mut u64,
) -> (event: Option<SimEvent>)
    requires
        performs_handoff(*decision, old(active_set)@) ==> {
            &&& *old(handoff_count) < u32::MAX
            &&& *old(handoff_attempts) < u64::MAX
            &&& *old(handoff_successes) < u64::MAX
        },
    ensures
        *final(serving_cell) == serving_after(*decision, *old(serving_cell)),
        !(*decision is HandoffTo) && !(*decision is ConditionalExecute) ==> *final(serving_cell) == *old(serving_cell),
        final(active_set)@ == active_set_after(*decision, old(active_set)@),
        *final(handoff_count) == *old(handoff_count) + handoff_increment(*decision, old(active_set)@),
        *final(handoff_attempts) == *old(handoff_attempts) + handoff_increment(*decision, old(active_set)@),
        *final(handoff_successes) == *old(handoff_successes) + handoff_increment(*decision, old(active_set)@),
        *final(handoff_attempts) - *final(handoff_successes) == *old(handoff_attempts) - *old(handoff_successes),
        match *decision {
            HandoffDecision::HandoffTo { target_id } => event matches Some(e)
                && is_handoff_event(e, tick, mobile_id, *old(serving_cell), target_id, false),
            HandoffDecision::ConditionalExecute { target_id } => event matches Some(e)
                && is_handoff_event(e, tick, mobile_id, *old(serving_cell), target_id, true),
            _ => event is None,
        },
{
    match *decision {
        HandoffDecision::Stay => None,
        HandoffDecision::HandoffTo { target_id } => {
            let old_cell = *serving_cell;
            *serving_cell = Some(target_id);
            *handoff_count = *handoff_count + 1;
            *handoff_attempts = *handoff_attempts + 1;
            *handoff_successes = *handoff_successes + 1;
            Some(handoff_event(tick, mobile_id, old_cell, target_id, false))
        },
        HandoffDecision::SoftAdd { add_id } => {
            if decision_performs_handoff(decision, active_set) {
                active_set.push(add_id);
                *handoff_count = *handoff_count + 1;
                *handoff_attempts = *handoff_attempts + 1;
                *handoff_successes = *handoff_successes + 1;
            }
            None
        },
        HandoffDecision::SoftRemove { remove_id } => {
            let kept = remove_all(active_set, remove_id);
            *active_set = kept;
            None
        },
        HandoffDecision::ConditionalPrepare { .. } => None,
        HandoffDecision::ConditionalExecute { target_id } => {
            let old_cell = *serving_cell;
            *serving_cell = Some(target_id);
            *handoff_count = *handoff_count + 1;
            *handoff_attempts = *handoff_attempts + 1;
            *handoff_successes = *handoff_successes + 1;
            Some(handoff_event(tick, mobile_id, old_cell, target_id, true))
        },
    }
}

/// A mobile's active set never lists a cell twice: every decision keeps it free
/// of duplicates.
pub proof fn handoff_keeps_active_set_distinct(d: HandoffDecision, active: Seq<u32>)
    requires
        active.no_duplicates(),
    ensures
        active_set_after(d, active).no_duplicates(),
{
    match d {
        HandoffDecision::SoftRemove { remove_id } => {
            lemma_filter_keeps_distinct(active, is_not(remove_id));
        },
        _ => {},
    }
}

proof fn lemma_filter_keeps_distinct(s: Seq<u32>, p: spec_fn(u32) -> bool)
    requires
        s.no_duplicates(),
    ensures
        s.filter(p).no_duplicates(),
    decreases s.len(),
{
    reveal_with_fuel(Seq::filter, 1);
    if s.len() > 0 {
        let prev = s.drop_last();
        assert(prev.no_duplicates());
        lemma_filter_keeps_distinct(prev, p);
        if p(s.last()) {
            assert(!prev.contains(s.last()));
            assert forall|x: u32| prev.filter(p).contains(x) implies prev.contains(x) by {
                prev.lemma_filter_contains_rev(p, x);
            }
        }
    }
}

/// What each decision does to a mobile's attachment and counters. Only a hard or a
/// conditional-execute handoff moves the serving cell, and it moves it to the
/// target; every other decision (stay, prepare, soft add, soft remove) leaves the
/// serving cell as it was. Only soft handoffs touch the active set: a soft add
/// leaves the cell in the set, appending it when new; a soft remove keeps exactly
/// the other cells. A handoff is counted once when the serving cell moves or a new
/// cell joins the active set, and never otherwise.
pub proof fn decision_effects(d: HandoffDecision, serving: Option<u32>, active: Seq<u32>)
    ensures
        !(d is HandoffTo) && !(d is ConditionalExecute) ==> serving_after(d, serving) == serving,
        d matches HandoffDecision::HandoffTo { target_id } ==> serving_after(d, serving) == Some(target_id),
        d matches HandoffDecision::ConditionalExecute { target_id } ==> serving_after(d, serving) == Some(target_id),
        !(d is SoftAdd) && !(d is SoftRemove) ==> active_set_after(d, active) == active,
        d matches HandoffDecision::SoftAdd { add_id } ==> {
            &&& active_set_after(d, active).contains(add_id)
            &&& active.contains(add_id) ==> active_set_after(d, active) == active
            &&& !active.contains(add_id) ==> active_set_after(d, active) == active.push(add_id)
        },
        d matches HandoffDecision::SoftRemove { remove_id } ==> {
            &&& active_set_after(d, active).len() <= active.len()
            &&& forall|x: u32| #[trigger] active_set_after(d, active).contains(x) <==> (active.contains(x) && x != remove_id)
        },
        handoff_increment(d, active) == 0 || handoff_increment(d, active) == 1,
        (d is HandoffTo || d is ConditionalExecute) ==> handoff_increment(d, active) == 1,
        (d is Stay || d is SoftRemove || d is ConditionalPrepare) ==> handoff_increment(d, active) == 0,
        d matches HandoffDecision::SoftAdd { add_id } ==> (handoff_increment(d, active) == 1 <==> !active.contains(add_id)),
{
    if let HandoffDecision::SoftAdd { add_id } = d {
        if !active.contains(add_id) {
            assert(active.push(add_id)[active.len() as int] == add_id);
        }
    }
    if let HandoffDecision::SoftRemove { remove_id } = d {
        let p = is_not(remove_id);
        active.lemma_filter_len(p);
        assert forall|x: u32| #[trigger] active.filter(p).contains(x) <==> (active.contains(x) && x != remove_id) by {
            if active.filter(p).contains(x) {
                active.lemma_filter_contains_rev(p, x);
                let k = choose|k: int| 0 <= k < active.filter(p).len() && active.filter(p)[k] == x;
                active.lemma_filter_pred(p, k);
            }
            if active.contains(x) && x != remove_id {
                let k = choose|k: int| 0 <= k < active.len() && active[k] == x;
                active.lemma_filter_contains(p, k);
            }
        }
    }
}

/// A soft removal takes the cell out of the active set entirely.
pub proof fn soft_remove_leaves_no_trace(active: Seq<u32>, remove_id: u32)
    ensures
        !active_set_after(HandoffDecision::SoftRemove { remove_id }, active).contains(remove_id),
{
    if active.filter(is_not(remove_id)).contains(remove_id) {
        active.lemma_filter_contains_rev(is_not(remove_id), remove_id);
    }
}

/// The population after refilling `current` mobiles up to `target`: the target,
/// or `current` when departures left more than that.
pub open spec fn refilled_population(current: int, target: int) -> int {
    if current < target {
        target
    } else {
        current
    }
}

/// Plans the end-of-tick refill: the number of mobiles to spawn so that the
/// population reaches `target`, each counted as one arrival.
pub fn plan_refill(current: usize, target: u32, total_arrivals: &mut u64) -> (n: usize)
    requires
        current < target ==> *old(total_arrivals) + (target - current) <= u64::MAX,
    ensures
        current + n == refilled_population(current as int, target as int),
        *final(total_arrivals) == *old(total_arrivals) + n,
{
    let t = target as usize;
    if current < t {
        let n = t - current;
        *total_arrivals = *total_arrivals + n as u64;
        n
    } else {
        0
    }
}

/// The position of the first base whose identifier is `id`, if any: the base a
/// tower failure or restoration names.
pub fn first_index_of(ids: &Vec<u32>, id: u32) -> (r: Option<usize>)
    ensures
        match r {
            Some(i) => i < ids@.len() && ids@[i as int] == id && forall|j: int| 0 <= j < i ==> ids@[j] != id,
            None => !ids@.contains(id),
        },
{
    let n = ids.len();
    let mut i: usize = 0;
    while i < n
        invariant
            n == ids@.len(),
            0 <= i <= n,
            forall|j: int| 0 <= j < i ==> ids@[j] != id,
        decreases n - i,
    {
        if ids[i] == id {
            return Some(i);
        }
        i = i + 1;
    }
    None
}

// ---------------------------------------------------------------------------
// SLA tracking
// ---------------------------------------------------------------------------

/// Updates a mobile's SLA flag for this tick given whether its latency exceeds its
/// budget; a new violation (the flag rising) counts once and is reported by `true`.
pub fn update_sla(sla_violated: &mut bool, over_budget: bool, sla_violations: &mut u64) -> (newly_violated: bool)
    requires
        over_budget && !*old(sla_violated) ==> *old(sla_violations) < u64::MAX,
    ensures
        newly_violated == (over_budget && !*old(sla_violated)),
        *final(sla_violated) == over_budget,
        *final(sla_violations) == *old(sla_violations) + if newly_violated { 1int } else { 0 },
{
    let newly = over_budget && !*sla_violated;
    if newly {
        *sla_violations = *sla_violations + 1;
    }
    *sla_violated = over_budget;
    newly
}

// ---------------------------------------------------------------------------
// Per-cell connection lists
// ---------------------------------------------------------------------------

/// The identifiers of the mobiles among the first `n` whose serving cell is the base
/// at index `b`, in mobile order.
pub open spec fn connected_prefix(ids: Seq<u32>, serving: Seq<Option<u32>>, b: int, n: int) -> Seq<u32>
    decreases n,
{
    if n <= 0 {
        Seq::empty()
    } else {
        let prev = connected_prefix(ids, serving, b, n - 1);
        if serving[n - 1] matches Some(c) && c as int == b {
            prev.push(ids[n - 1])
        } else {
            prev
        }
    }
}

/// The identifiers of all mobiles served by the base at index `b`, in mobile order.
pub open spec fn connected_to(ids: Seq<u32>, serving: Seq<Option<u32>>, b: int) -> Seq<u32> {
    connected_prefix(ids, serving, b, ids.len() as int)
}

/// For each of `n_bases` base stations (by index), the identifiers of the mobiles it
/// serves, in mobile order. A mobile whose serving cell names no base is listed nowhere.
pub fn connected_mobiles(n_bases: usize, ids: &Vec<u32>, serving: &Vec<Option<u32>>) -> (lists: Vec<Vec<u32>>)
    requires
        ids@.len() == serving@.len(),
    ensures
        lists@.len() == n_bases,
        forall|b: int| 0 <= b < n_bases ==> #[trigger] lists@[b]@ == connected_to(ids@, serving@, b),
{
    let mut lists: Vec<Vec<u32>> = Vec::new();
    let n = ids.len();
    let mut b: usize = 0;
    while b < n_bases
        invariant
            n == ids@.len(),
            n == serving@.len(),
            0 <= b <= n_bases,
            lists@.len() == b,
            forall|k: int| 0 <= k < b ==> #[trigger] lists@[k]@ == connected_to(ids@, serving@, k),
        decreases n_bases - b,
    {
        let mut list: Vec<u32> = Vec::new();
        let mut j: usize = 0;
        while j < n
            invariant
                n == ids@.len(),
                n == serving@.len(),
                0 <= j <= n,
                list@ == connected_prefix(ids@, serving@, b as int, j as int),
            decreases n - j,
        {
            match serving[j] {
                Some(c) => {
                    if c as usize == b {
                        list.push(ids[j]);
                    }
                },
                None => {},
            }
            j = j + 1;
        }
        lists.push(list);
        b = b + 1;
    }
    lists
}

proof fn lemma_connected_prefix_members(ids: Seq<u32>, serving: Seq<Option<u32>>, b: int, n: int, x: u32)
    requires
        0 <= n <= ids.len(),
        ids.len() == serving.len(),
    ensures
        connected_prefix(ids, serving, b, n).contains(x) <==> exists|j: int|
            0 <= j < n && ids[j] == x && #[trigger] serving[j] == Some(b as u32) && 0 <= b <= u32::MAX,
    decreases n,
{
    if n > 0 {
        lemma_connected_prefix_members(ids, serving, b, n - 1, x);
        let prev = connected_prefix(ids, serving, b, n - 1);
        if connected_prefix(ids, serving, b, n).contains(x) {
            if !prev.contains(x) {
                let k = prev.len() as int;
                assert(connected_prefix(ids, serving, b, n)[k] == x);
                assert(serving[n - 1] == Some(b as u32));
            }
        }
        if exists|j: int| 0 <= j < n && ids[j] == x && #[trigger] serving[j] == Some(b as u32) && 0 <= b <= u32::MAX {
            let j = choose|j: int| 0 <= j < n && ids[j] == x && #[trigger] serving[j] == Some(b as u32) && 0 <= b <= u32::MAX;
            if j == n - 1 {
                let cur = connected_prefix(ids, serving, b, n);
                assert(cur[cur.len() - 1] == x);
            } else {
                assert(prev.contains(x));
                let i = choose|i: int| 0 <= i < prev.len() && prev[i] == x;
                assert(connected_prefix(ids, serving, b, n)[i] == x);
            }
        }
    }
}

/// A mobile is listed at the base that serves it and at no other: `x` appears in
/// the list of base `b` exactly when some mobile with identifier `x` is served by `b`.
pub proof fn connected_lists_follow_serving_cells(ids: Seq<u32>, serving: Seq<Option<u32>>, b: int, x: u32)
    requires
        ids.len() == serving.len(),
        0 <= b <= u32::MAX,
    ensures
        connected_to(ids, serving, b).contains(x) <==> exists|j: int|
            0 <= j < ids.len() && ids[j] == x && #[trigger] serving[j] == Some(b as u32),
{
    lemma_connected_prefix_members(ids, serving, b, ids.len() as int, x);
}

// ---------------------------------------------------------------------------
// Event records
// ---------------------------------------------------------------------------

/// The detail line recorded when a scenario event fires.
pub open spec fn scenario_detail(kind: ScenarioEventKind) -> Seq<char> {
    match kind {
        ScenarioEventKind::TowerFailure { base_id } => "Tower #"@ + decimal(base_id as nat) + " failed (scenario)"@,
        ScenarioEventKind::TowerRestore { base_id } => "Tower #"@ + decimal(base_id as nat) + " restored (scenario)"@,
        ScenarioEventKind::MobileSurge { count } => "Mobile surge: +"@ + decimal(count as nat) + " mobiles (scenario)"@,
    }
}

/// The event type recorded when a scenario event fires.
pub open spec fn scenario_event_type(kind: ScenarioEventKind) -> SimEventType {
    match kind {
        ScenarioEventKind::TowerFailure { .. } => SimEventType::TowerFailure,
        ScenarioEventKind::TowerRestore { .. } => SimEventType::TowerRestore,
        ScenarioEventKind::MobileSurge { .. } => SimEventType::MobileSurge,
    }
}

/// The event that records a scenario event firing at `tick` (no mobile involved).
pub fn scenario_event(tick: u64, kind: &ScenarioEventKind) -> (e: SimEvent)
    ensures
        e.tick == tick,
        e.mobile_id == 0,
        e.event_type == scenario_event_type(*kind),
        e.detail@ == scenario_detail(*kind),
{
    match *kind {
        ScenarioEventKind::TowerFailure { base_id } => {
            let mut d = String::from_str("Tower #");
            let num = decimal_string(base_id as u64);
            d.append(num.as_str());
            d.append(" failed (scenario)");
            SimEvent { tick, mobile_id: 0, event_type: SimEventType::TowerFailure, detail: d }
        },
        ScenarioEventKind::TowerRestore { base_id } => {
            let mut d = String::from_str("Tower #");
            let num = decimal_string(base_id as u64);
            d.append(num.as_str());
            d.append(" restored (scenario)");
            SimEvent { tick, mobile_id: 0, event_type: SimEventType::TowerRestore, detail: d }
        },
        ScenarioEventKind::MobileSurge { count } => {
            let mut d = String::from_str("Mobile surge: +");
            let num = decimal_string(count as u64);
            d.append(num.as_str());
            d.append(" mobiles (scenario)");
            SimEvent { tick, mobile_id: 0, event_type: SimEventType::MobileSurge, detail: d }
        },
    }
}

/// The event that records a mobile's normal departure.
pub fn departure_event(tick: u64, mobile_id: u32) -> (e: SimEvent)
    ensures
        e.tick == tick,
        e.mobile_id == mobile_id,
        e.event_type == SimEventType::Departure,
        e.detail@ == "normal departure"@,
{
    SimEvent { tick, mobile_id, event_type: SimEventType::Departure, detail: String::from_str("normal departure") }
}

/// The event that records a newly spawned mobile.
pub fn arrival_event(tick: u64, mobile_id: u32) -> (e: SimEvent)
    ensures
        e.tick == tick,
        e.mobile_id == mobile_id,
        e.event_type == SimEventType::Arrival,
        e.detail@ == "new mobile spawned"@,
{
    SimEvent { tick, mobile_id, event_type: SimEventType::Arrival, detail: String::from_str("new mobile spawned") }
}

} // verus!
