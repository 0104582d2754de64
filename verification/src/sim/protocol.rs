//! Handoff decisions — the answer a handoff protocol gives for one mobile per tick.

use vstd::prelude::*;

verus! {

/// The result of a protocol's handoff decision for one mobile.
#[derive(Debug, Clone, Copy, PartialEq, Eq, Structural)]
pub enum HandoffDecision {
    /// Remain on the current serving cell.
    Stay,
    /// Hard handoff to a different base station.
    HandoffTo { target_id: u32 },
    /// Gen3 soft-handoff: add a new cell to the active set.
    SoftAdd { add_id: u32 },
    /// Gen3 soft-handoff: remove a weak cell from the active set.
    SoftRemove { remove_id: u32 },
    /// Gen5 Conditional Handoff: begin preparation (T304 timer not started).
    ConditionalPrepare { target_id: u32 },
    /// Gen5 Conditional Handoff: execute the prepared handoff.
    ConditionalExecute { target_id: u32 },
}

/// The most cells a Gen3 active set holds.
pub const MAX_ACTIVE_SET: usize = 3;

/// A threshold protocol's decision (Gen4 A3, strongest-first, hysteresis): hand off
/// to the strongest other live base when its power beats the serving power by the
/// protocol's margin; stay when the mobile has no serving cell or no such base.
pub open spec fn threshold_decision_of(serving: Option<u32>, best_neighbor: Option<u32>, beats_serving: bool) -> HandoffDecision {
    match (serving, best_neighbor) {
        (Some(_), Some(b)) => if beats_serving {
            HandoffDecision::HandoffTo { target_id: b }
        } else {
            HandoffDecision::Stay
        },
        _ => HandoffDecision::Stay,
    }
}

/// Decides a threshold handoff, given the strongest other live base and whether its
/// power beats the serving power by the protocol's margin.
pub fn threshold_decision(serving: Option<u32>, best_neighbor: Option<u32>, beats_serving: bool) -> (d: HandoffDecision)
    ensures
        d == threshold_decision_of(serving, best_neighbor, beats_serving),
{
    match (serving, best_neighbor) {
        (Some(_), Some(b)) => if beats_serving {
            HandoffDecision::HandoffTo { target_id: b }
        } else {
            HandoffDecision::Stay
        },
        _ => HandoffDecision::Stay,
    }
}

/// The Gen5 conditional-handoff decision: with a serving cell and a strongest other
/// live base, execute when the power gap passes the execution threshold, else
/// prepare when it passes the preparation threshold, else stay.
pub open spec fn conditional_decision_of(
    serving: Option<u32>,
    best_neighbor: Option<u32>,
    over_execute: bool,
    over_prepare: bool,
) -> HandoffDecision {
    match (serving, best_neighbor) {
        (Some(_), Some(b)) => if over_execute {
            HandoffDecision::ConditionalExecute { target_id: b }
        } else if over_prepare {
            HandoffDecision::ConditionalPrepare { target_id: b }
        } else {
            HandoffDecision::Stay
        },
        _ => HandoffDecision::Stay,
    }
}

/// Decides a Gen5 conditional handoff from the strongest other live base and the
/// two threshold tests on its power gap over the serving cell.
pub fn conditional_decision(serving: Option<u32>, best_neighbor: Option<u32>, over_execute: bool, over_prepare: bool) -> (d: HandoffDecision)
    ensures
        d == conditional_decision_of(serving, best_neighbor, over_execute, over_prepare),
{
    match (serving, best_neighbor) {
        (Some(_), Some(b)) => if over_execute {
            HandoffDecision::ConditionalExecute { target_id: b }
        } else if over_prepare {
            HandoffDecision::ConditionalPrepare { target_id: b }
        } else {
            HandoffDecision::Stay
        },
        _ => HandoffDecision::Stay,
    }
}

/// The conditional handoff is never more hesitant than the threshold handoff whose
/// margin is at least its execution threshold: when the strongest neighbour beats
/// the serving power by the threshold margin it also passes the execution
/// threshold, and that passes the preparation threshold (for Gen4 A3 and Gen5
/// CHO: 3 dB, 2 dB and 1 dB). Then wherever the threshold protocol hands off to a
/// cell the conditional one executes to it, and wherever the conditional one stays
/// so does the threshold one.
pub proof fn conditional_handoff_follows_threshold_handoff(
    serving: Option<u32>,
    best_neighbor: Option<u32>,
    beats_serving: bool,
    over_execute: bool,
    over_prepare: bool,
    target: u32,
)
    requires
        beats_serving ==> over_execute,
        over_execute ==> over_prepare,
    ensures
        threshold_decision_of(serving, best_neighbor, beats_serving) == (HandoffDecision::HandoffTo { target_id: target })
            ==> conditional_decision_of(serving, best_neighbor, over_execute, over_prepare)
                == (HandoffDecision::ConditionalExecute { target_id: target }),
        conditional_decision_of(serving, best_neighbor, over_execute, over_prepare) == HandoffDecision::Stay
            ==> threshold_decision_of(serving, best_neighbor, beats_serving) == HandoffDecision::Stay,
{
}

/// Whether `k` is the first index at which `flags` holds.
pub open spec fn first_flag_at(flags: Seq<bool>, k: int) -> bool {
    &&& 0 <= k < flags.len()
    &&& flags[k]
    &&& forall|j: int| 0 <= j < k ==> !flags[j]
}

/// Whether the soft-handoff candidate joins the active set: there is one, the set
/// does not hold it, and the set has room.
pub open spec fn joins_active_set(candidate: Option<u32>, active: Seq<u32>) -> bool {
    &&& candidate is Some
    &&& !active.contains(candidate->0)
    &&& active.len() < MAX_ACTIVE_SET
}

/// Decides a Gen3 soft handoff. `candidate` is the first live base within the soft
/// window of the strongest power; `too_weak[k]` tells whether the active-set cell
/// `active_set[k]` is live and more than the window below the strongest power.
///
/// The candidate joins the active set when it is not in it and the set has room;
/// otherwise the first cell that is too weak leaves it; otherwise the mobile stays.
pub fn soft_handoff_decision(candidate: Option<u32>, active_set: &Vec<u32>, too_weak: &Vec<bool>) -> (d: HandoffDecision)
    requires
        too_weak@.len() == active_set@.len(),
    ensures
        joins_active_set(candidate, active_set@) ==> d == (HandoffDecision::SoftAdd { add_id: candidate->0 }),
        forall|k: int| !joins_active_set(candidate, active_set@) && #[trigger] first_flag_at(too_weak@, k)
            ==> d == (HandoffDecision::SoftRemove { remove_id: active_set@[k] }),
        !joins_active_set(candidate, active_set@) && (forall|k: int| 0 <= k < too_weak@.len() ==> !too_weak@[k])
            ==> d == HandoffDecision::Stay,
{
    if let Some(c) = candidate {
        let mut present = false;
        let mut i: usize = 0;
        while i < active_set.len()
            invariant
                0 <= i <= active_set@.len(),
                present <==> exists|j: int| 0 <= j < i && active_set@[j] == c,
            decreases active_set@.len() - i,
        {
            if active_set[i] == c {
                present = true;
            }
            i = i + 1;
        }
        if !present && active_set.len() < MAX_ACTIVE_SET {
            return HandoffDecision::SoftAdd { add_id: c };
        }
    }
    let n = too_weak.len();
    let mut k: usize = 0;
    while k < n
        invariant
            n == too_weak@.len(),
            too_weak@.len() == active_set@.len(),
            0 <= k <= n,
            forall|j: int| 0 <= j < k ==> !too_weak@[j],
            !joins_active_set(candidate, active_set@),
        decreases n - k,
    {
        if too_weak[k] {
            let d = HandoffDecision::SoftRemove { remove_id: active_set[k] };
            proof {
                assert forall|j: int| #[trigger] first_flag_at(too_weak@, j) implies j == k by {
                    if j < k {
                        assert(!too_weak@[j]);
                    }
                    if j > k {
                        assert(!too_weak@[k as int]);
                    }
                }
            }
            return d;
        }
        k = k + 1;
    }
    HandoffDecision::Stay
}

} // verus!
