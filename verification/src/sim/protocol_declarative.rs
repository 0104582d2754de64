//! Declarative rule-based handoff protocols: an ordered list of rules, each a
//! condition `"{metric} {op} {value}"` and an action, of which the first whose
//! condition holds decides.
//!
//! This module reads the rule language: it splits a condition into its words,
//! recognises the metric and the comparison, and recognises the action. Evaluating
//! a condition compares radio measurements, which is done outside this library.

use vstd::prelude::*;
use vstd::string::*;

verus! {

/// A single rule in a declarative protocol definition.
///
/// Condition syntax: `"{metric} {op} {value}"`, e.g. `"sinr_db < -5.0"`, with
/// metrics `sinr_db`, `rsrp_dbm`, `serving_load`, `speed_mps` and ops `<`, `>`,
/// `<=`, `>=`. Actions: `"handoff_to_best"`, `"soft_add_best"`, `"stay"`.
#[derive(Debug, Clone)]
pub struct DeclarativeRule {
    /// Condition string, e.g. `"sinr_db < -5.0"`.
    pub condition: String,
    /// Action string, e.g. `"handoff_to_best"`.
    pub action: String,
}

/// A handoff protocol fully defined by an ordered list of rules.
#[derive(Debug, Clone)]
pub struct DeclarativeProtocol {
    /// Human-readable name.
    pub name: String,
    /// One-sentence description.
    pub description: String,
    /// Ordered rules — first matching rule wins.
    pub rules: Vec<DeclarativeRule>,
}

impl DeclarativeProtocol {
    /// The protocol's display name.
    pub fn name(&self) -> (s: &str)
        ensures
            s@ == self.name@,
    {
        self.name.as_str()
    }

    /// The protocol's description.
    pub fn description(&self) -> (s: &str)
        ensures
            s@ == self.description@,
    {
        self.description.as_str()
    }
}

// ---------------------------------------------------------------------------
// Words of a condition
// ---------------------------------------------------------------------------

/// Whether `c` has the Unicode `White_Space` property, the property that
/// `char::is_whitespace` tests: U+0009 to U+000D, U+0020, U+0085, U+00A0, U+1680,
/// U+2000 to U+200A, U+2028, U+2029, U+202F, U+205F and U+3000.
pub open spec fn unicode_white_space(c: char) -> bool {
    let v = c as u32;
    ||| 0x9 <= v <= 0xd
    ||| v == 0x20
    ||| v == 0x85
    ||| v == 0xa0
    ||| v == 0x1680
    ||| 0x2000 <= v <= 0x200a
    ||| v == 0x2028
    ||| v == 0x2029
    ||| v == 0x202f
    ||| v == 0x205f
    ||| v == 0x3000
}

/// Whether `c` is whitespace in the Unicode sense.
pub fn is_white_space(c: char) -> (b: bool)
    ensures
        b == unicode_white_space(c),
{
    let v = c as u32;
    (0x9 <= v && v <= 0xd) || v == 0x20 || v == 0x85 || v == 0xa0 || v == 0x1680
        || (0x2000 <= v && v <= 0x200a) || v == 0x2028 || v == 0x2029 || v == 0x202f
        || v == 0x205f || v == 0x3000
}

/// The number of consecutive non-whitespace characters of `s` from position `i`.
pub open spec fn word_len_from(s: Seq<char>, i: int) -> nat
    decreases s.len() - i,
{
    if i < 0 || i >= s.len() || unicode_white_space(s[i]) {
        0
    } else {
        1 + word_len_from(s, i + 1)
    }
}

/// The words of `s` from position `i` on: its maximal runs of non-whitespace characters.
pub open spec fn words_from(s: Seq<char>, i: int) -> Seq<Seq<char>>
    decreases s.len() - i,
{
    if i < 0 || i >= s.len() {
        Seq::empty()
    } else if unicode_white_space(s[i]) {
        words_from(s, i + 1)
    } else {
        let j = i + 1 + word_len_from(s, i + 1);
        proof {
            lemma_word_len_bound(s, i + 1);
        }
        seq![s.subrange(i, j)] + words_from(s, j)
    }
}

/// The whitespace-separated words of `s`, as `str::split_whitespace` yields them.
pub open spec fn whitespace_words(s: Seq<char>) -> Seq<Seq<char>> {
    words_from(s, 0)
}

/// A word starting at `i` ends within `s`.
pub proof fn lemma_word_len_bound(s: Seq<char>, i: int)
    requires
        0 <= i <= s.len(),
    ensures
        i + word_len_from(s, i) <= s.len(),
    decreases s.len() - i,
{
    if i < s.len() && !unicode_white_space(s[i]) {
        lemma_word_len_bound(s, i + 1);
    }
}

/// Splits `s` into its whitespace-separated words, in order.
pub fn split_words(s: &str) -> (words: Vec<String>)
    ensures
        words@.len() == whitespace_words(s@).len(),
        forall|k: int| 0 <= k < words@.len() ==> #[trigger] words@[k]@ == whitespace_words(s@)[k],
{
    let n = s.unicode_len();
    let mut words: Vec<String> = Vec::new();
    let mut i: usize = 0;
    while i < n
        invariant
            n == s@.len(),
            0 <= i <= n,
            words@.len() + words_from(s@, i as int).len() == whitespace_words(s@).len(),
            forall|k: int| 0 <= k < words@.len() ==> #[trigger] words@[k]@ == whitespace_words(s@)[k],
            forall|k: int| 0 <= k < words_from(s@, i as int).len() ==>
                #[trigger] words_from(s@, i as int)[k] == whitespace_words(s@)[words@.len() + k],
        decreases n - i,
    {
        let c = s.get_char(i);
        if is_white_space(c) {
            assert(words_from(s@, i as int) == words_from(s@, i as int + 1));
            i = i + 1;
        } else {
            let mut j: usize = i + 1;
            while j < n && !is_white_space(s.get_char(j))
                invariant
                    n == s@.len(),
                    i < j <= n,
                    i + word_len_from(s@, i as int) == j + word_len_from(s@, j as int),
                decreases n - j,
            {
                j = j + 1;
            }
            proof {
                lemma_word_len_bound(s@, i as int);
                assert(word_len_from(s@, j as int) == 0);
                let ws = words_from(s@, i as int);
                assert(ws == seq![s@.subrange(i as int, j as int)] + words_from(s@, j as int));
                assert(ws[0] == s@.subrange(i as int, j as int));
                assert forall|k: int| 0 <= k < words_from(s@, j as int).len() implies
                    #[trigger] words_from(s@, j as int)[k] == whitespace_words(s@)[words@.len() + 1 + k] by {
                    assert(ws[k + 1] == words_from(s@, j as int)[k]);
                }
            }
            let w = String::from_str(s.substring_char(i, j));
            words.push(w);
            i = j;
        }
    }
    words
}

// ---------------------------------------------------------------------------
// Conditions and actions
// ---------------------------------------------------------------------------

/// A mobile measurement that a condition can test.
#[derive(Debug, Clone, Copy, PartialEq, Eq, Structural)]
pub enum ConditionMetric {
    /// `sinr_db`: the mobile's SINR in dB.
    SinrDb,
    /// `rsrp_dbm`: the mobile's reference signal received power in dBm.
    RsrpDbm,
    /// `speed_mps`: the mobile's speed in m/s.
    SpeedMps,
    /// `serving_load`: the load of the mobile's serving base in percent (0 when none).
    ServingLoad,
}

/// A comparison a condition applies between the metric and its threshold.
#[derive(Debug, Clone, Copy, PartialEq, Eq, Structural)]
pub enum ComparisonOp {
    /// `<`
    Less,
    /// `>`
    Greater,
    /// `<=`
    LessOrEqual,
    /// `>=`
    GreaterOrEqual,
}

/// A condition read from its text: metric, comparison and the threshold's text.
#[derive(Debug, Clone)]
pub struct RuleCondition {
    pub metric: ConditionMetric,
    pub op: ComparisonOp,
    /// The threshold as written; it holds when it parses as a number.
    pub threshold: String,
}

/// What a rule does when its condition holds. Any unrecognised action stays.
#[derive(Debug, Clone, Copy, PartialEq, Eq, Structural)]
pub enum RuleAction {
    /// `stay`, or any action not recognised.
    Stay,
    /// `handoff_to_best`: hard handoff to the strongest other live base.
    HandoffToBest,
    /// `soft_add_best`: add the strongest live base not yet in the active set.
    SoftAddBest,
}

/// The metric a word names, if any.
pub open spec fn metric_named(w: Seq<char>) -> Option<ConditionMetric> {
    if w == "sinr_db"@ {
        Some(ConditionMetric::SinrDb)
    } else if w == "rsrp_dbm"@ {
        Some(ConditionMetric::RsrpDbm)
    } else if w == "speed_mps"@ {
        Some(ConditionMetric::SpeedMps)
    } else if w == "serving_load"@ {
        Some(ConditionMetric::ServingLoad)
    } else {
        None
    }
}

/// The comparison a word names, if any.
pub open spec fn op_named(w: Seq<char>) -> Option<ComparisonOp> {
    if w == "<"@ {
        Some(ComparisonOp::Less)
    } else if w == ">"@ {
        Some(ComparisonOp::Greater)
    } else if w == "<="@ {
        Some(ComparisonOp::LessOrEqual)
    } else if w == ">="@ {
        Some(ComparisonOp::GreaterOrEqual)
    } else {
        None
    }
}

/// The action a text names.
pub open spec fn action_named(a: Seq<char>) -> RuleAction {
    if a == "handoff_to_best"@ {
        RuleAction::HandoffToBest
    } else if a == "soft_add_best"@ {
        RuleAction::SoftAddBest
    } else {
        RuleAction::Stay
    }
}

/// Whether `c` is the condition read from the words `w`: exactly three words, a
/// known metric, a known comparison, and the threshold's text.
pub open spec fn condition_from_words(w: Seq<Seq<char>>, c: Option<RuleCondition>) -> bool {
    if w.len() == 3 && metric_named(w[0]) is Some && op_named(w[1]) is Some {
        c matches Some(rc) && rc.metric == metric_named(w[0]).unwrap() && rc.op == op_named(w[1]).unwrap()
            && rc.threshold@ == w[2]
    } else {
        c is None
    }
}

fn metric_of(w: &String) -> (m: Option<ConditionMetric>)
    ensures
        m == metric_named(w@),
{
    if *w == String::from_str("sinr_db") {
        Some(ConditionMetric::SinrDb)
    } else if *w == String::from_str("rsrp_dbm") {
        Some(ConditionMetric::RsrpDbm)
    } else if *w == String::from_str("speed_mps") {
        Some(ConditionMetric::SpeedMps)
    } else if *w == String::from_str("serving_load") {
        Some(ConditionMetric::ServingLoad)
    } else {
        None
    }
}

fn op_of(w: &String) -> (o: Option<ComparisonOp>)
    ensures
        o == op_named(w@),
{
    if *w == String::from_str("<") {
        Some(ComparisonOp::Less)
    } else if *w == String::from_str(">") {
        Some(ComparisonOp::Greater)
    } else if *w == String::from_str("<=") {
        Some(ComparisonOp::LessOrEqual)
    } else if *w == String::from_str(">=") {
        Some(ComparisonOp::GreaterOrEqual)
    } else {
        None
    }
}

/// Reads a condition from its words. A condition that is not exactly three words,
/// or names an unknown metric or comparison, never holds and reads as `None`.
pub fn condition_of_words(words: &Vec<String>) -> (c: Option<RuleCondition>)
    ensures
        condition_from_words(words@.map_values(|w: String| w@), c),
{
    let ghost wv = words@.map_values(|w: String| w@);
    if words.len() != 3 {
        return None;
    }
    let metric = metric_of(&words[0]);
    let op = op_of(&words[1]);
    match (metric, op) {
        (Some(m), Some(o)) => {
            let threshold = words[2].clone();
            Some(RuleCondition { metric: m, op: o, threshold })
        },
        _ => None,
    }
}

/// Reads a rule's condition text, as `"{metric} {op} {value}"` separated by whitespace.
pub fn parse_condition(cond: &str) -> (c: Option<RuleCondition>)
    ensures
        condition_from_words(whitespace_words(cond@), c),
{
    let words = split_words(cond);
    proof {
        assert(words@.map_values(|w: String| w@) =~= whitespace_words(cond@));
    }
    condition_of_words(&words)
}

/// Reads a rule's action text.
pub fn parse_action(action: &str) -> (a: RuleAction)
    ensures
        a == action_named(action@),
{
    let s = String::from_str(action);
    if s == String::from_str("handoff_to_best") {
        RuleAction::HandoffToBest
    } else if s == String::from_str("soft_add_best") {
        RuleAction::SoftAddBest
    } else {
        RuleAction::Stay
    }
}

// ---------------------------------------------------------------------------
// Rule selection
// ---------------------------------------------------------------------------

/// The index of the first `true` in `holds`, if any.
pub fn first_matching_rule(holds: &Vec<bool>) -> (r: Option<usize>)
    ensures
        match r {
            Some(i) => i < holds@.len() && holds@[i as int] && forall|j: int| 0 <= j < i ==> !holds@[j],
            None => forall|j: int| 0 <= j < holds@.len() ==> !holds@[j],
        },
{
    let n = holds.len();
    let mut i: usize = 0;
    while i < n
        invariant
            n == holds@.len(),
            0 <= i <= n,
            forall|j: int| 0 <= j < i ==> !holds@[j],
        decreases n - i,
    {
        if holds[i] {
            return Some(i);
        }
        i = i + 1;
    }
    None
}

impl DeclarativeProtocol {
    /// The action the protocol takes when `holds[i]` tells whether the condition of
    /// rule `i` holds: the action of the first rule whose condition holds, or stay
    /// when none does.
    pub fn chosen_action(&self, holds: &Vec<bool>) -> (a: RuleAction)
        requires
            holds@.len() == self.rules@.len(),
        ensures
            (forall|j: int| 0 <= j < holds@.len() ==> !holds@[j]) ==> a == RuleAction::Stay,
            forall|i: int|
                0 <= i < holds@.len() && #[trigger] holds@[i] && (forall|j: int| 0 <= j < i ==> !holds@[j])
                    ==> a == action_named(self.rules@[i].action@),
    {
        match first_matching_rule(holds) {
            Some(i) => {
                let a = parse_action(self.rules[i].action.as_str());
                proof {
                    assert forall|k: int|
                        0 <= k < holds@.len() && #[trigger] holds@[k] && (forall|j: int| 0 <= j < k ==> !holds@[j])
                            implies k == i by {
                        if k < i {
                            assert(!holds@[k]);
                        }
                        if k > i {
                            assert(!holds@[i as int]);
                        }
                    }
                }
                a
            },
            None => RuleAction::Stay,
        }
    }
}

/// The first matching rule wins: once rule `i` holds, no later rule matters, and
/// the protocol takes rule `i`'s action whatever the later rules say.
pub proof fn first_matching_rule_wins(holds: Seq<bool>, other: Seq<bool>, i: int)
    requires
        holds.len() == other.len(),
        0 <= i < holds.len(),
        holds[i],
        forall|j: int| 0 <= j < i ==> !holds[j],
        forall|j: int| 0 <= j <= i ==> other[j] == holds[j],
    ensures
        forall|k: int| 0 <= k < other.len() && other[k] && (forall|j: int| 0 <= j < k ==> !other[j]) ==> k == i,
{
    assert forall|k: int| 0 <= k < other.len() && other[k] && (forall|j: int| 0 <= j < k ==> !other[j]) implies k == i by {
        if k < i {
            assert(other[k] == holds[k]);
        }
        if k > i {
            assert(!other[i]);
        }
    }
}

} // verus!
