//! Lifecycle commands, A/B run choices, replay stepping, event log filter and rows,
//! and random headings.

use martini::app_state::{NavPanel, SimCommand, SimState};
use martini::sim::ab_test::{fallback_protocol_name, run_seed, AbTestConfig};
use martini::sim::mobile::Direction;
use martini::sim::{SimEvent, SimEventType};
use martini::ui::event_log::{event_is_clickable, event_row_label, event_style, event_visible};
use martini::ui::replay_panel::{last_frame, step_back, step_forward};
use martini::ui::EventLogPanel;
use rand::SeedableRng;

#[test]
fn start_stop_reset() {
    let t = SimState::Idle.on_command(SimCommand::Start);
    assert_eq!(t.next, SimState::Running);
    assert!(t.start_engine && t.stop_engine && !t.clear_view);
    let t = SimState::Running.on_command(SimCommand::Start);
    assert_eq!(t.next, SimState::Running);
    assert!(!t.start_engine && !t.stop_engine);
    let t = SimState::Running.on_command(SimCommand::Stop);
    assert_eq!(t.next, SimState::Stopped);
    assert!(t.stop_engine && !t.start_engine);
    let t = SimState::Idle.on_command(SimCommand::Stop);
    assert_eq!(t.next, SimState::Idle);
    assert!(!t.stop_engine);
    let t = SimState::Stopped.on_command(SimCommand::Start);
    assert_eq!(t.next, SimState::Running);
    for s in [SimState::Idle, SimState::Running, SimState::Stopped] {
        let t = s.on_command(SimCommand::Reset);
        assert_eq!(t.next, SimState::Idle);
        assert!(t.stop_engine && t.clear_view && !t.start_engine);
    }
    assert_eq!(SimState::default(), SimState::Idle);
    assert_ne!(NavPanel::MapView, NavPanel::Replay);
}

#[test]
fn state_indicator() {
    assert_eq!(SimState::Idle.indicator(), ("● IDLE", [150, 150, 150]));
    assert_eq!(SimState::Running.indicator(), ("● RUNNING", [80, 220, 80]));
    assert_eq!(SimState::Stopped.indicator(), ("● STOPPED", [220, 80, 80]));
}

#[test]
fn ab_defaults_and_seeds() {
    let c = AbTestConfig::default();
    assert_eq!((c.protocol_a_index, c.protocol_b_index, c.n_runs, c.ticks_per_run, c.same_seed), (0, 1, 10, 1000, true));
    assert_eq!(run_seed(0, true), 1);
    assert_eq!(run_seed(3, true), 301);
    assert_eq!(run_seed(3, false), 0);
    assert_eq!(fallback_protocol_name(7), "Protocol #7");
}

#[test]
fn replay_stepping() {
    let mut f = 0usize;
    let mut playing = true;
    step_forward(&mut f, &mut playing, 3);
    assert_eq!((f, playing), (1, true));
    step_forward(&mut f, &mut playing, 3);
    assert_eq!((f, playing), (2, true));
    step_forward(&mut f, &mut playing, 3);
    assert_eq!((f, playing), (2, false));
    step_back(&mut f);
    assert_eq!(f, 1);
    step_back(&mut f);
    step_back(&mut f);
    assert_eq!(f, 0);
    assert_eq!(last_frame(3), 2);
    assert_eq!(last_frame(0), 0);
}

#[test]
fn step_back_undoes_step_forward() {
    let mut f = 4usize;
    let mut playing = false;
    step_forward(&mut f, &mut playing, 10);
    step_back(&mut f);
    assert_eq!(f, 4);
}

fn event(t: SimEventType, id: u32, detail: &str) -> SimEvent {
    SimEvent { tick: 12, mobile_id: id, event_type: t, detail: detail.to_string() }
}

#[test]
fn event_log_panel_defaults() {
    let p = EventLogPanel::new();
    assert!(p.filter_text.is_empty());
    assert!(p.scroll_to_bottom);
    let d = EventLogPanel::default();
    assert!(d.filter_text.is_empty() && d.scroll_to_bottom);
}

#[test]
fn filter_is_case_insensitive() {
    let p = EventLogPanel { filter_text: "TOWER".to_string(), scroll_to_bottom: true };
    let key = p.filter_key();
    assert_eq!(key, "tower");
    let e = event(SimEventType::TowerFailure, 0, "Tower #4 failed (scenario)");
    assert!(event_visible(&e, &key));
    let e = event(SimEventType::Arrival, 0, "new mobile spawned");
    assert!(!event_visible(&e, &key));
}

#[test]
fn filter_matches_mobile_id() {
    let e = event(SimEventType::Departure, 1234, "normal departure");
    assert!(event_visible(&e, "23"));
    assert!(!event_visible(&e, "5"));
    assert!(event_visible(&e, ""));
    assert!(event_visible(&e, "normal dep"));
}

#[test]
fn event_styles() {
    assert_eq!(event_style(&SimEventType::Arrival), ([80, 140, 220], "→"));
    assert_eq!(event_style(&SimEventType::Departure), ([140, 140, 140], "←"));
    assert_eq!(event_style(&SimEventType::HandoffSuccess), ([60, 180, 60], "⇄"));
    assert_eq!(event_style(&SimEventType::HandoffFailure), ([220, 80, 80], "✗"));
    assert_eq!(event_style(&SimEventType::SlaViolation), ([220, 130, 0], "⚠"));
    assert_eq!(event_style(&SimEventType::TowerFailure), ([160, 40, 40], "⚡"));
    assert_eq!(event_style(&SimEventType::TowerRestore), ([60, 160, 100], "✓"));
    assert_eq!(event_style(&SimEventType::MobileSurge), ([120, 80, 200], "↑"));
    assert!(event_is_clickable(&SimEventType::HandoffSuccess));
    assert!(event_is_clickable(&SimEventType::HandoffFailure));
    assert!(!event_is_clickable(&SimEventType::Arrival));
}

#[test]
fn event_row_text() {
    let e = event(SimEventType::HandoffSuccess, 3, "Mobile #3: #1 → #2");
    assert_eq!(event_row_label(&e), "[    12] ⇄ M#3 — Mobile #3: #1 → #2");
    let e = SimEvent { tick: 12345678, mobile_id: 0, event_type: SimEventType::Arrival, detail: "x".to_string() };
    assert_eq!(event_row_label(&e), format!("[{:>6}] → M#0 — x", 12345678));
}

#[test]
fn headings() {
    assert_eq!(Direction::from_index(0), Direction::East);
    assert_eq!(Direction::from_index(1), Direction::South);
    assert_eq!(Direction::from_index(2), Direction::West);
    assert_eq!(Direction::from_index(3), Direction::North);
    assert_eq!(Direction::East.turned(true), Direction::North);
    assert_eq!(Direction::West.turned(false), Direction::South);
    assert_eq!(Direction::North.turned(true), Direction::East);
    assert_eq!(Direction::South.turned(false), Direction::West);
}

#[test]
fn random_headings_turn_at_right_angles() {
    let mut rng = rand::rngs::StdRng::seed_from_u64(42);
    for _ in 0..50 {
        let d = Direction::random(&mut rng);
        let t = d.turn_random(&mut rng);
        let horizontal = |x: Direction| x == Direction::East || x == Direction::West;
        assert_ne!(horizontal(d), horizontal(t));
    }
}

#[test]
fn shared_seeds_pair_runs() {
    for r in 0..20u32 {
        assert_ne!(run_seed(r, true), 0);
        if r > 0 {
            assert_ne!(run_seed(r, true), run_seed(r - 1, true));
        }
    }
}

#[test]
fn stepping_stays_in_recording() {
    for total in 1..6usize {
        for start in 0..total {
            let mut f = start;
            let mut playing = true;
            step_forward(&mut f, &mut playing, total);
            assert!(f < total);
            assert_eq!(playing, start + 1 < total);
            let mut g = start;
            step_back(&mut g);
            assert!(g < total);
            if start > 0 {
                let mut p = true;
                step_forward(&mut g, &mut p, total);
                assert_eq!(g, start);
            }
        }
        assert!(last_frame(total) < total);
    }
}
