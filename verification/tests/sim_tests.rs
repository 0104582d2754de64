//! Simulation bookkeeping: histories, event log, handoff application, SLA tracking,
//! identities, connection lists, scenario scheduling and event records.

use std::collections::VecDeque;

use martini::config::TrafficProfile;
use martini::sim::engine::{
    apply_handoff_decision, arrival_event, connected_mobiles, departure_event, next_mobile_identity,
    profile_for_id, push_event, scenario_event, update_sla,
};
use martini::sim::engine::{color_slot, decision_performs_handoff};
use martini::sim::replay::ReplayRecorder;
use martini::sim::history::{push_bounded, EVENT_LOG_CAPACITY, SAMPLE_HISTORY_CAPACITY, TRAIL_CAPACITY};
use martini::sim::scenario::{ScenarioEventKind, ScheduledEvent};
use martini::sim::{HandoffDecision, Scenario, SimEvent, SimEventType};
use martini::sim::base::channels_full;
use martini::sim::engine::{first_index_of, plan_refill};
use martini::sim::protocol::{conditional_decision, soft_handoff_decision, threshold_decision, MAX_ACTIVE_SET};

fn ev(tick: u64, id: u32) -> SimEvent {
    SimEvent { tick, mobile_id: id, event_type: SimEventType::Arrival, detail: format!("e{tick}") }
}

#[test]
fn history_capacities() {
    assert_eq!(EVENT_LOG_CAPACITY, 500);
    assert_eq!(SAMPLE_HISTORY_CAPACITY, 60);
    assert_eq!(TRAIL_CAPACITY, 10);
}

#[test]
fn bounded_history_keeps_latest_items() {
    let mut h: VecDeque<u32> = VecDeque::new();
    for i in 1..=12u32 {
        push_bounded(&mut h, i, TRAIL_CAPACITY);
        assert!(h.len() <= TRAIL_CAPACITY);
        assert_eq!(*h.back().unwrap(), i);
    }
    let kept: Vec<u32> = h.iter().copied().collect();
    assert_eq!(kept, (3..=12).collect::<Vec<u32>>());
}

#[test]
fn bounded_history_below_capacity_keeps_all() {
    let mut h: VecDeque<i64> = VecDeque::new();
    for i in 0..5i64 {
        push_bounded(&mut h, -i, SAMPLE_HISTORY_CAPACITY);
    }
    assert_eq!(h.iter().copied().collect::<Vec<i64>>(), vec![0, -1, -2, -3, -4]);
}

#[test]
fn event_log_drops_oldest_after_500() {
    let mut log: VecDeque<SimEvent> = VecDeque::new();
    for t in 0..501u64 {
        push_event(&mut log, ev(t, 1));
    }
    assert_eq!(log.len(), 500);
    assert_eq!(log.front().unwrap().tick, 1);
    assert_eq!(log.back().unwrap().tick, 500);
}

#[test]
fn profiles_are_dealt_round_robin() {
    assert_eq!(profile_for_id(0), TrafficProfile::VideoStream);
    assert_eq!(profile_for_id(1), TrafficProfile::CloudGaming);
    assert_eq!(profile_for_id(2), TrafficProfile::VoiceCall);
    assert_eq!(profile_for_id(3), TrafficProfile::Idle);
    assert_eq!(profile_for_id(4), TrafficProfile::WebBrowse);
    assert_eq!(profile_for_id(5), TrafficProfile::VideoStream);
    assert_eq!(profile_for_id(23), TrafficProfile::Idle);
}

#[test]
fn mobile_identities_advance() {
    let mut next = 20u32;
    assert_eq!(next_mobile_identity(&mut next), (20, TrafficProfile::VideoStream));
    assert_eq!(next_mobile_identity(&mut next), (21, TrafficProfile::CloudGaming));
    assert_eq!(next, 22);
}

struct Link {
    serving: Option<u32>,
    active: Vec<u32>,
    count: u32,
    attempts: u64,
    successes: u64,
}

impl Link {
    fn new(serving: Option<u32>, active: Vec<u32>) -> Self {
        Link { serving, active, count: 0, attempts: 0, successes: 0 }
    }
    fn apply(&mut self, d: HandoffDecision, tick: u64, id: u32) -> Option<SimEvent> {
        apply_handoff_decision(
            &d,
            tick,
            id,
            &mut self.serving,
            &mut self.active,
            &mut self.count,
            &mut self.attempts,
            &mut self.successes,
        )
    }
}

#[test]
fn hard_handoff_moves_serving_cell() {
    let mut l = Link::new(Some(1), vec![]);
    let e = l.apply(HandoffDecision::HandoffTo { target_id: 2 }, 12, 3).unwrap();
    assert_eq!(l.serving, Some(2));
    assert_eq!((l.count, l.attempts, l.successes), (1, 1, 1));
    assert_eq!(e.tick, 12);
    assert_eq!(e.mobile_id, 3);
    assert_eq!(e.event_type, SimEventType::HandoffSuccess);
    assert_eq!(e.detail, "Mobile #3: #1 → #2");
}

#[test]
fn conditional_execute_from_no_cell() {
    let mut l = Link::new(None, vec![]);
    let e = l.apply(HandoffDecision::ConditionalExecute { target_id: 7 }, 1, 40).unwrap();
    assert_eq!(l.serving, Some(7));
    assert_eq!(e.detail, "Mobile #40: CHO none → #7");
    assert_eq!((l.count, l.attempts, l.successes), (1, 1, 1));
}

#[test]
fn stay_and_prepare_change_nothing() {
    let mut l = Link::new(Some(4), vec![4, 5]);
    assert!(l.apply(HandoffDecision::Stay, 1, 1).is_none());
    assert!(l.apply(HandoffDecision::ConditionalPrepare { target_id: 9 }, 1, 1).is_none());
    assert_eq!(l.serving, Some(4));
    assert_eq!(l.active, vec![4, 5]);
    assert_eq!((l.count, l.attempts, l.successes), (0, 0, 0));
}

#[test]
fn soft_add_joins_active_set_once() {
    let mut l = Link::new(Some(1), vec![1]);
    assert!(l.apply(HandoffDecision::SoftAdd { add_id: 3 }, 1, 1).is_none());
    assert_eq!(l.active, vec![1, 3]);
    assert_eq!((l.count, l.attempts, l.successes), (1, 1, 1));
    // Adding a cell already present changes nothing and counts nothing.
    assert!(l.apply(HandoffDecision::SoftAdd { add_id: 3 }, 2, 1).is_none());
    assert_eq!(l.active, vec![1, 3]);
    assert_eq!((l.count, l.attempts, l.successes), (1, 1, 1));
    assert_eq!(l.serving, Some(1));
}

#[test]
fn soft_remove_drops_every_occurrence() {
    let mut l = Link::new(Some(1), vec![2, 5, 2, 7]);
    assert!(l.apply(HandoffDecision::SoftRemove { remove_id: 2 }, 1, 1).is_none());
    assert_eq!(l.active, vec![5, 7]);
    assert_eq!((l.count, l.attempts, l.successes), (0, 0, 0));
    assert!(l.apply(HandoffDecision::SoftRemove { remove_id: 9 }, 1, 1).is_none());
    assert_eq!(l.active, vec![5, 7]);
}

#[test]
fn attempts_and_successes_stay_equal() {
    let mut l = Link::new(None, vec![]);
    let decisions = [
        HandoffDecision::HandoffTo { target_id: 1 },
        HandoffDecision::SoftAdd { add_id: 2 },
        HandoffDecision::SoftAdd { add_id: 2 },
        HandoffDecision::SoftRemove { remove_id: 2 },
        HandoffDecision::ConditionalPrepare { target_id: 3 },
        HandoffDecision::ConditionalExecute { target_id: 3 },
        HandoffDecision::Stay,
    ];
    for d in decisions {
        l.apply(d, 5, 8);
        assert_eq!(l.attempts, l.successes);
    }
    assert_eq!(l.attempts, 3);
    assert_eq!(l.count, 3);
}

#[test]
fn sla_counts_rising_edges() {
    let mut violated = false;
    let mut count = 0u64;
    assert!(update_sla(&mut violated, true, &mut count));
    assert!(!update_sla(&mut violated, true, &mut count));
    assert!(!update_sla(&mut violated, false, &mut count));
    assert!(!violated);
    assert!(update_sla(&mut violated, true, &mut count));
    assert_eq!(count, 2);
    assert!(violated);
}

#[test]
fn connected_lists_follow_serving_cells() {
    let ids = vec![10, 11, 12, 13, 14];
    let serving = vec![Some(1), None, Some(0), Some(1), Some(7)];
    let lists = connected_mobiles(3, &ids, &serving);
    assert_eq!(lists, vec![vec![12], vec![10, 13], vec![]]);
}

#[test]
fn connected_lists_with_no_bases() {
    let lists = connected_mobiles(0, &vec![1], &vec![Some(0)]);
    assert!(lists.is_empty());
}

#[test]
fn scenario_event_records() {
    let e = scenario_event(30, &ScenarioEventKind::TowerFailure { base_id: 4 });
    assert_eq!((e.tick, e.mobile_id, e.event_type), (30, 0, SimEventType::TowerFailure));
    assert_eq!(e.detail, "Tower #4 failed (scenario)");
    let e = scenario_event(31, &ScenarioEventKind::TowerRestore { base_id: 12 });
    assert_eq!(e.event_type, SimEventType::TowerRestore);
    assert_eq!(e.detail, "Tower #12 restored (scenario)");
    let e = scenario_event(32, &ScenarioEventKind::MobileSurge { count: 25 });
    assert_eq!(e.event_type, SimEventType::MobileSurge);
    assert_eq!(e.detail, "Mobile surge: +25 mobiles (scenario)");
}

#[test]
fn departure_and_arrival_records() {
    let d = departure_event(9, 5);
    assert_eq!((d.tick, d.mobile_id, d.event_type), (9, 5, SimEventType::Departure));
    assert_eq!(d.detail, "normal departure");
    let a = arrival_event(9, 6);
    assert_eq!((a.tick, a.mobile_id, a.event_type), (9, 6, SimEventType::Arrival));
    assert_eq!(a.detail, "new mobile spawned");
}

fn sched(tick: u64, kind: ScenarioEventKind) -> ScheduledEvent {
    ScheduledEvent { tick, kind }
}

#[test]
fn scenario_events_at_tick() {
    let s = Scenario {
        name: "n".to_string(),
        description: String::new(),
        events: vec![
            sched(5, ScenarioEventKind::TowerFailure { base_id: 1 }),
            sched(7, ScenarioEventKind::MobileSurge { count: 3 }),
            sched(5, ScenarioEventKind::TowerRestore { base_id: 2 }),
        ],
    };
    let at5 = s.events_at(5);
    assert_eq!(at5.len(), 2);
    assert_eq!(*at5[0], ScenarioEventKind::TowerFailure { base_id: 1 });
    assert_eq!(*at5[1], ScenarioEventKind::TowerRestore { base_id: 2 });
    assert_eq!(s.events_at(7).len(), 1);
    assert!(s.events_at(6).is_empty());
}

#[test]
fn scenario_sort_is_stable() {
    let mut s = Scenario {
        name: "surge".to_string(),
        description: "d".to_string(),
        events: vec![
            sched(9, ScenarioEventKind::MobileSurge { count: 1 }),
            sched(2, ScenarioEventKind::TowerFailure { base_id: 1 }),
            sched(9, ScenarioEventKind::MobileSurge { count: 2 }),
            sched(2, ScenarioEventKind::TowerRestore { base_id: 1 }),
            sched(4, ScenarioEventKind::TowerFailure { base_id: 3 }),
        ],
    };
    let before_9: Vec<ScenarioEventKind> = s.events_at(9).into_iter().copied().collect();
    s.sort_events_by_tick();
    let ticks: Vec<u64> = s.events.iter().map(|e| e.tick).collect();
    assert_eq!(ticks, vec![2, 2, 4, 9, 9]);
    assert_eq!(s.events[0].kind, ScenarioEventKind::TowerFailure { base_id: 1 });
    assert_eq!(s.events[1].kind, ScenarioEventKind::TowerRestore { base_id: 1 });
    assert_eq!(s.events[3].kind, ScenarioEventKind::MobileSurge { count: 1 });
    assert_eq!(s.events[4].kind, ScenarioEventKind::MobileSurge { count: 2 });
    let after_9: Vec<ScenarioEventKind> = s.events_at(9).into_iter().copied().collect();
    assert_eq!(before_9, after_9);
    assert_eq!(s.name, "surge");
    assert_eq!(s.description, "d");
}

#[test]
fn recorder_records_only_while_recording() {
    let mut r: ReplayRecorder<u32> = ReplayRecorder::new();
    assert!(!r.recording && r.frames.is_empty());
    r.record(1);
    assert!(r.frames.is_empty());
    r.start();
    r.record(2);
    r.record(3);
    r.stop();
    r.record(4);
    assert_eq!(r.frames, vec![2, 3]);
    assert!(!r.recording);
    r.start();
    assert!(r.frames.is_empty() && r.recording);
    let d: ReplayRecorder<u8> = ReplayRecorder::default();
    assert!(!d.recording && d.frames.is_empty());
}

#[test]
fn color_slots_cycle_through_eight() {
    assert_eq!(color_slot(0), 0);
    assert_eq!(color_slot(7), 7);
    assert_eq!(color_slot(8), 0);
    assert_eq!(color_slot(u32::MAX), 7);
}

#[test]
fn which_decisions_perform_handoffs() {
    let active = vec![3u32, 4];
    assert!(decision_performs_handoff(&HandoffDecision::HandoffTo { target_id: 1 }, &active));
    assert!(decision_performs_handoff(&HandoffDecision::ConditionalExecute { target_id: 1 }, &active));
    assert!(decision_performs_handoff(&HandoffDecision::SoftAdd { add_id: 5 }, &active));
    assert!(!decision_performs_handoff(&HandoffDecision::SoftAdd { add_id: 4 }, &active));
    assert!(!decision_performs_handoff(&HandoffDecision::SoftRemove { remove_id: 4 }, &active));
    assert!(!decision_performs_handoff(&HandoffDecision::ConditionalPrepare { target_id: 4 }, &active));
    assert!(!decision_performs_handoff(&HandoffDecision::Stay, &active));
}

#[test]
fn recording_after_start_keeps_frames_in_order() {
    let mut r: ReplayRecorder<u64> = ReplayRecorder::new();
    r.start();
    r.record(7);
    r.stop();
    r.start();
    let items: Vec<u64> = vec![10, 20, 30, 40, 50];
    for &t in &items {
        r.record(t);
    }
    assert_eq!(r.frames, items);
    r.stop();
    for t in 60..65u64 {
        r.record(t);
    }
    assert_eq!(r.frames, items);
}

#[test]
fn sorting_keeps_every_event() {
    let events = vec![
        sched(5, ScenarioEventKind::TowerFailure { base_id: 2 }),
        sched(1, ScenarioEventKind::MobileSurge { count: 3 }),
        sched(5, ScenarioEventKind::TowerFailure { base_id: 2 }),
        sched(0, ScenarioEventKind::TowerRestore { base_id: 7 }),
    ];
    let mut s = Scenario { name: String::new(), description: String::new(), events: events.clone() };
    s.sort_events_by_tick();
    assert_eq!(s.events.len(), events.len());
    for e in &events {
        let before = events.iter().filter(|x| *x == e).count();
        let after = s.events.iter().filter(|x| *x == e).count();
        assert_eq!(before, after);
    }
}

#[test]
fn threshold_decisions() {
    assert_eq!(threshold_decision(Some(1), Some(4), true), HandoffDecision::HandoffTo { target_id: 4 });
    assert_eq!(threshold_decision(Some(1), Some(4), false), HandoffDecision::Stay);
    assert_eq!(threshold_decision(Some(1), None, true), HandoffDecision::Stay);
    assert_eq!(threshold_decision(None, Some(4), true), HandoffDecision::Stay);
}

#[test]
fn conditional_decisions() {
    assert_eq!(conditional_decision(Some(1), Some(2), true, true), HandoffDecision::ConditionalExecute { target_id: 2 });
    assert_eq!(conditional_decision(Some(1), Some(2), false, true), HandoffDecision::ConditionalPrepare { target_id: 2 });
    assert_eq!(conditional_decision(Some(1), Some(2), false, false), HandoffDecision::Stay);
    assert_eq!(conditional_decision(None, Some(2), true, true), HandoffDecision::Stay);
    assert_eq!(conditional_decision(Some(1), None, true, true), HandoffDecision::Stay);
}

#[test]
fn soft_handoff_decisions() {
    assert_eq!(MAX_ACTIVE_SET, 3);
    // A new candidate joins a set with room.
    assert_eq!(soft_handoff_decision(Some(5), &vec![1], &vec![false]), HandoffDecision::SoftAdd { add_id: 5 });
    // A full set takes no candidate; the first cell too weak leaves.
    assert_eq!(
        soft_handoff_decision(Some(5), &vec![1, 2, 3], &vec![false, true, true]),
        HandoffDecision::SoftRemove { remove_id: 2 }
    );
    // A candidate already in the set is not added again.
    assert_eq!(soft_handoff_decision(Some(1), &vec![1, 2], &vec![false, false]), HandoffDecision::Stay);
    assert_eq!(soft_handoff_decision(None, &vec![], &vec![]), HandoffDecision::Stay);
    assert_eq!(soft_handoff_decision(None, &vec![4], &vec![true]), HandoffDecision::SoftRemove { remove_id: 4 });
}

#[test]
fn base_capacity_and_lookup() {
    assert!(!channels_full(0, 1));
    assert!(channels_full(3, 3));
    assert!(channels_full(4, 3));
    assert!(channels_full(0, 0));
    assert_eq!(first_index_of(&vec![3, 8, 8, 1], 8), Some(1));
    assert_eq!(first_index_of(&vec![3, 8, 8, 1], 1), Some(3));
    assert_eq!(first_index_of(&vec![3, 8], 9), None);
    assert_eq!(first_index_of(&vec![], 9), None);
}

#[test]
fn refill_reaches_target_population() {
    let mut arrivals = 10u64;
    assert_eq!(plan_refill(7, 12, &mut arrivals), 5);
    assert_eq!(arrivals, 15);
    assert_eq!(plan_refill(12, 12, &mut arrivals), 0);
    assert_eq!(plan_refill(20, 12, &mut arrivals), 0);
    assert_eq!(arrivals, 15);
    assert_eq!(plan_refill(0, 3, &mut arrivals), 3);
    assert_eq!(arrivals, 18);
}

#[test]
fn cho_executes_wherever_a3_hands_off() {
    // Power gaps of a neighbour over the serving cell, in dB.
    for gap in [-4.0f32, 0.5, 1.5, 2.5, 3.5, 10.0] {
        let a3 = threshold_decision(Some(1), Some(2), gap > 3.0);
        let cho = conditional_decision(Some(1), Some(2), gap > 2.0, gap > 1.0);
        if a3 == (HandoffDecision::HandoffTo { target_id: 2 }) {
            assert_eq!(cho, HandoffDecision::ConditionalExecute { target_id: 2 });
        }
        if cho == HandoffDecision::Stay {
            assert_eq!(a3, HandoffDecision::Stay);
        }
    }
}
