//! Protocol names, registry indices and the declarative rule language.

use martini::sim::protocol_declarative::{
    condition_of_words, first_matching_rule, is_white_space, parse_action, parse_condition, split_words, ComparisonOp, ConditionMetric,
    DeclarativeProtocol, DeclarativeRule, RuleAction,
};
use martini::sim::protocol_native::{
    native_protocol_for_index, Gen3SoftHandoff, Gen4LteA3, Gen5NrCho, NativeProtocolKind,
    StrongestFirstProtocol,
};
use martini::sim::protocol_wasm::WasmProtocol;

#[test]
fn native_protocol_names() {
    assert_eq!(Gen3SoftHandoff.name(), "Gen3 Soft Handoff (UMTS)");
    assert_eq!(Gen4LteA3.name(), "Gen4 LTE A3 Handoff");
    assert_eq!(Gen5NrCho.name(), "Gen5 NR Conditional Handoff");
    assert_eq!(StrongestFirstProtocol.name(), "Strongest-First (Legacy)");
    assert!(Gen3SoftHandoff.description().contains("6 dB"));
    assert!(Gen4LteA3.description().contains("3 dB"));
    assert!(Gen5NrCho.description().starts_with("5G NR CHO"));
    assert_eq!(
        StrongestFirstProtocol.description(),
        "Always hand off to the base with the highest received power."
    );
}

#[test]
fn wasm_protocol_name_is_plugin_name() {
    let w = WasmProtocol { plugin_path: "p.wasm".to_string(), plugin_name: "Plug".to_string() };
    assert_eq!(w.name(), "Plug");
    assert_eq!(w.description(), "WASM plugin (requires wasm-plugins feature)");
}

#[test]
fn registry_indices_of_builtin_protocols() {
    assert_eq!(native_protocol_for_index(0), Some(NativeProtocolKind::Gen3SoftHandoff));
    assert_eq!(native_protocol_for_index(1), Some(NativeProtocolKind::Gen4LteA3));
    assert_eq!(native_protocol_for_index(2), Some(NativeProtocolKind::Gen5NrCho));
    assert_eq!(native_protocol_for_index(3), None);
}

#[test]
fn declarative_protocol_name_and_description() {
    let p = DeclarativeProtocol {
        name: "My Aggressive Handoff".to_string(),
        description: "Hand off immediately.".to_string(),
        rules: vec![DeclarativeRule { condition: "sinr_db < -3.0".to_string(), action: "handoff_to_best".to_string() }],
    };
    assert_eq!(p.name(), "My Aggressive Handoff");
    assert_eq!(p.description(), "Hand off immediately.");
}

#[test]
fn words_split_on_any_whitespace() {
    assert_eq!(split_words("  sinr_db   <\t-5.0 \n"), vec!["sinr_db", "<", "-5.0"]);
    assert_eq!(split_words("a\u{3000}b"), vec!["a", "b"]);
    assert!(split_words("   ").is_empty());
    assert!(split_words("").is_empty());
    assert_eq!(split_words("één"), vec!["één"]);
}

#[test]
fn conditions_parse() {
    let c = parse_condition("sinr_db < -5.0").unwrap();
    assert_eq!((c.metric, c.op, c.threshold.as_str()), (ConditionMetric::SinrDb, ComparisonOp::Less, "-5.0"));
    let c = parse_condition("  serving_load >= 80.0").unwrap();
    assert_eq!((c.metric, c.op, c.threshold.as_str()), (ConditionMetric::ServingLoad, ComparisonOp::GreaterOrEqual, "80.0"));
    let c = parse_condition("rsrp_dbm > -100").unwrap();
    assert_eq!((c.metric, c.op), (ConditionMetric::RsrpDbm, ComparisonOp::Greater));
    let c = parse_condition("speed_mps <= 3").unwrap();
    assert_eq!((c.metric, c.op), (ConditionMetric::SpeedMps, ComparisonOp::LessOrEqual));
}

#[test]
fn malformed_conditions_never_hold() {
    assert!(parse_condition("sinr_db<-5.0").is_none());
    assert!(parse_condition("sinr_db < -5.0 dB").is_none());
    assert!(parse_condition("latency < 5").is_none());
    assert!(parse_condition("sinr_db == 5").is_none());
    assert!(parse_condition("").is_none());
}

#[test]
fn condition_from_given_words() {
    let words = vec!["speed_mps".to_string(), ">".to_string(), "abc".to_string()];
    let c = condition_of_words(&words).unwrap();
    assert_eq!((c.metric, c.op, c.threshold.as_str()), (ConditionMetric::SpeedMps, ComparisonOp::Greater, "abc"));
    let words = vec!["speed_mps".to_string(), "=>".to_string(), "1".to_string()];
    assert!(condition_of_words(&words).is_none());
}

#[test]
fn actions_parse() {
    assert_eq!(parse_action("handoff_to_best"), RuleAction::HandoffToBest);
    assert_eq!(parse_action("soft_add_best"), RuleAction::SoftAddBest);
    assert_eq!(parse_action("stay"), RuleAction::Stay);
    assert_eq!(parse_action("jump"), RuleAction::Stay);
    assert_eq!(parse_action(" stay"), RuleAction::Stay);
}

fn rule(cond: &str, action: &str) -> DeclarativeRule {
    DeclarativeRule { condition: cond.to_string(), action: action.to_string() }
}

#[test]
fn first_matching_rule_wins() {
    let p = DeclarativeProtocol {
        name: "p".to_string(),
        description: String::new(),
        rules: vec![
            rule("sinr_db < -5.0", "handoff_to_best"),
            rule("serving_load >= 80.0", "soft_add_best"),
            rule("speed_mps > 30", "stay"),
        ],
    };
    assert_eq!(p.chosen_action(&vec![false, true, true]), RuleAction::SoftAddBest);
    assert_eq!(p.chosen_action(&vec![true, true, false]), RuleAction::HandoffToBest);
    assert_eq!(p.chosen_action(&vec![false, false, true]), RuleAction::Stay);
    assert_eq!(p.chosen_action(&vec![false, false, false]), RuleAction::Stay);
    assert_eq!(first_matching_rule(&vec![false, true, true]), Some(1));
    assert_eq!(first_matching_rule(&vec![]), None);
}

#[test]
fn white_space_agrees_with_std_on_every_char() {
    for c in (0u32..=0x10ffff).filter_map(char::from_u32) {
        assert_eq!(is_white_space(c), c.is_whitespace(), "U+{:04X}", c as u32);
    }
    assert!(is_white_space('\u{85}'));
    assert!(is_white_space('\u{2029}'));
    assert!(!is_white_space('\u{200b}'));
    assert!(!is_white_space('x'));
}
