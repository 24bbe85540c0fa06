use kanoniv_plan::{
    analyse_risks, BlockingAnalysis, BlockingKeySummary, MatchStrategySummary, Measure,
    PlanSource, RiskFlag, SurvivorshipSummary,
};
use serde_json::Value;

fn doc(text: &str) -> Value {
    serde_json::from_str(text).unwrap()
}

fn measure(x: f64) -> Measure {
    Measure { bits: x.to_bits(), shortest: format!("{}", x), two_places: format!("{:.2}", x) }
}

fn rule(name: &str, kind: &str, field: &str, threshold: Option<f64>, weight: f64) -> MatchStrategySummary {
    MatchStrategySummary {
        rule_name: name.to_string(),
        match_type: kind.to_string(),
        field: field.to_string(),
        algorithm: None,
        threshold: threshold.map(measure),
        weight: measure(weight),
        evaluation_order: if kind == "exact" { 3 } else { 4 },
    }
}

fn blocking(strategy: &str, keys: &[&str]) -> BlockingAnalysis {
    BlockingAnalysis {
        strategy: strategy.to_string(),
        keys: keys
            .iter()
            .map(|n| BlockingKeySummary { name: n.to_string(), transformation: "identity".to_string() })
            .collect(),
        estimated_reduction: "low".to_string(),
        warnings: vec![],
    }
}

fn survivorship(count: usize) -> Vec<SurvivorshipSummary> {
    (0..count)
        .map(|i| SurvivorshipSummary {
            field: format!("f{}", i),
            strategy: "most_recent".to_string(),
            source_priority: None,
        })
        .collect()
}

fn sources(count: usize) -> Vec<PlanSource> {
    (0..count)
        .map(|i| PlanSource { name: format!("s{}", i), system: "sys".to_string(), field_count: 1 })
        .collect()
}

fn codes(flags: &[RiskFlag]) -> Vec<&str> {
    flags.iter().map(|f| f.code.as_str()).collect()
}

const QUIET: &str = r#"{"decision":{"thresholds":{"match":0.9,"review":0.7}},"temporal":{}}"#;

fn quiet_flags(rules: &[MatchStrategySummary], keys: &BlockingAnalysis) -> Vec<RiskFlag> {
    analyse_risks(&doc(QUIET), rules, keys, &survivorship(1), &sources(2))
}

#[test]
fn a_sound_specification_has_no_flags() {
    let rules = vec![
        rule("a", "exact", "email", None, 1.0),
        rule("b", "fuzzy", "name", Some(0.85), 0.5),
    ];
    assert!(quiet_flags(&rules, &blocking("standard", &["zip"])).is_empty());
}

#[test]
fn no_blocking_needs_no_keys_and_strategy_none() {
    let rules = vec![rule("a", "exact", "email", None, 1.0), rule("b", "exact", "id", None, 1.0)];
    let flags = quiet_flags(&rules, &blocking("none", &[]));
    assert_eq!(codes(&flags), vec!["NO_BLOCKING"]);
    assert_eq!(flags[0].severity, "critical");
    assert_eq!(
        flags[0].message,
        "No blocking keys defined — all pairs will be compared (O(n\u{00B2}))"
    );
    assert_eq!(flags[0].recommendation, "Add blocking keys to reduce comparison space");
    assert!(quiet_flags(&rules, &blocking("standard", &[])).is_empty());
    assert!(quiet_flags(&rules, &blocking("none", &["zip"])).is_empty());
}

#[test]
fn single_signal_needs_exactly_one_rule() {
    let keys = blocking("standard", &["zip"]);
    let one = vec![rule("a", "exact", "email", None, 1.0)];
    let flags = quiet_flags(&one, &keys);
    assert_eq!(codes(&flags), vec!["SINGLE_SIGNAL"]);
    assert_eq!(flags[0].severity, "high");
    assert_eq!(
        flags[0].message,
        "Only one match rule — identity resolution depends on a single signal"
    );
    assert_eq!(
        flags[0].recommendation,
        "Add additional match rules for more robust identity resolution"
    );
    assert!(quiet_flags(&[], &keys).is_empty());
}

#[test]
fn low_threshold_flags_each_offending_rule() {
    let keys = blocking("standard", &["zip"]);
    let rules = vec![
        rule("loose", "fuzzy", "name", Some(0.6), 0.5),
        rule("exact_low", "exact", "email", Some(0.1), 0.5),
        rule("edge", "fuzzy", "city", Some(0.8), 0.5),
        rule("none", "fuzzy", "street", None, 0.5),
        rule("looser", "phonetic", "surname", Some(0.799), 0.5),
    ];
    let flags = quiet_flags(&rules, &keys);
    assert_eq!(codes(&flags), vec!["LOW_THRESHOLD", "LOW_THRESHOLD"]);
    assert_eq!(flags[0].severity, "high");
    assert_eq!(flags[0].message, "Rule 'loose' has threshold 0.60 — risk of over-merging");
    assert_eq!(flags[1].message, "Rule 'looser' has threshold 0.80 — risk of over-merging");
    assert_eq!(
        flags[0].recommendation,
        "Consider raising threshold to 0.8+ or adding verification rules"
    );
}

#[test]
fn high_weight_flags_each_offending_rule() {
    let keys = blocking("standard", &["zip"]);
    let rules = vec![
        rule("heavy", "fuzzy", "name", None, 0.95),
        rule("exact_heavy", "exact", "email", None, 1.0),
        rule("edge", "fuzzy", "city", None, 0.9),
        rule("heavier", "composite", "all", None, 1.5),
    ];
    let flags = quiet_flags(&rules, &keys);
    assert_eq!(codes(&flags), vec!["HIGH_WEIGHT_FUZZY", "HIGH_WEIGHT_FUZZY"]);
    assert_eq!(flags[0].severity, "medium");
    assert_eq!(
        flags[0].message,
        "Fuzzy rule 'heavy' has weight 0.95 — high trust in approximate matching"
    );
    assert_eq!(
        flags[1].message,
        "Fuzzy rule 'heavier' has weight 1.50 — high trust in approximate matching"
    );
    assert_eq!(flags[0].recommendation, "Verify fuzzy algorithm accuracy or reduce weight");
}

#[test]
fn all_low_thresholds_come_before_all_high_weights() {
    let keys = blocking("standard", &["zip"]);
    let rules = vec![
        rule("both", "fuzzy", "name", Some(0.5), 0.99),
        rule("second", "fuzzy", "city", Some(0.4), 0.98),
    ];
    let flags = quiet_flags(&rules, &keys);
    assert_eq!(
        codes(&flags),
        vec!["LOW_THRESHOLD", "LOW_THRESHOLD", "HIGH_WEIGHT_FUZZY", "HIGH_WEIGHT_FUZZY"]
    );
    assert!(flags[0].message.contains("'both'"));
    assert!(flags[1].message.contains("'second'"));
    assert!(flags[2].message.contains("'both'"));
    assert!(flags[3].message.contains("'second'"));
}

#[test]
fn no_survivorship_needs_an_empty_list() {
    let rules = vec![rule("a", "exact", "email", None, 1.0), rule("b", "exact", "id", None, 1.0)];
    let keys = blocking("standard", &["zip"]);
    let flags = analyse_risks(&doc(QUIET), &rules, &keys, &survivorship(0), &sources(2));
    assert_eq!(codes(&flags), vec!["NO_SURVIVORSHIP"]);
    assert_eq!(flags[0].severity, "medium");
    assert_eq!(
        flags[0].message,
        "No survivorship rules defined — field selection will be arbitrary"
    );
    assert_eq!(
        flags[0].recommendation,
        "Define survivorship rules to control golden record field selection"
    );
}

#[test]
fn phone_rule_needs_a_phone_key() {
    let rules = vec![
        rule("a", "exact", "email", None, 1.0),
        rule("b", "exact", "home_phone_number", None, 1.0),
    ];
    let flags = quiet_flags(&rules, &blocking("standard", &["zip"]));
    assert_eq!(codes(&flags), vec!["PHONE_WITHOUT_BLOCKING"]);
    assert_eq!(flags[0].severity, "high");
    assert_eq!(
        flags[0].message,
        "Phone match rule without phone-based blocking key — phone reuse risk"
    );
    assert_eq!(flags[0].recommendation, "Add a phone-based blocking key (e.g., area code)");
    assert!(quiet_flags(&rules, &blocking("standard", &["zip", "phone_area"])).is_empty());
    assert!(quiet_flags(&rules, &blocking("standard", &["telephone"])).is_empty());
    let upper = vec![
        rule("a", "exact", "email", None, 1.0),
        rule("b", "exact", "Phone", None, 1.0),
    ];
    assert!(quiet_flags(&upper, &blocking("standard", &["zip"])).is_empty());
    let split = vec![
        rule("a", "exact", "pho", None, 1.0),
        rule("b", "exact", "ne", None, 1.0),
    ];
    assert!(quiet_flags(&split, &blocking("standard", &["zip"])).is_empty());
    assert_eq!(
        codes(&quiet_flags(&rules, &blocking("standard", &["Phone"]))),
        vec!["PHONE_WITHOUT_BLOCKING"]
    );
}

#[test]
fn review_threshold_counts_by_presence() {
    let rules = vec![rule("a", "exact", "email", None, 1.0), rule("b", "exact", "id", None, 1.0)];
    let keys = blocking("standard", &["zip"]);
    let run = |text: &str| analyse_risks(&doc(text), &rules, &keys, &survivorship(1), &sources(2));
    let flags = run(r#"{"decision":{"thresholds":{"match":0.9}},"temporal":{}}"#);
    assert_eq!(codes(&flags), vec!["NO_REVIEW_THRESHOLD"]);
    assert_eq!(flags[0].severity, "medium");
    assert_eq!(
        flags[0].message,
        "No review threshold — all decisions are merge-or-reject with no review band"
    );
    assert_eq!(flags[0].recommendation, "Add a review threshold for ambiguous matches");
    assert_eq!(codes(&run(r#"{"decision":{},"temporal":{}}"#)), vec!["NO_REVIEW_THRESHOLD"]);
    assert_eq!(codes(&run(r#"{"temporal":{}}"#)), vec!["NO_REVIEW_THRESHOLD"]);
    assert!(run(r#"{"decision":{"thresholds":{"review":null}},"temporal":{}}"#).is_empty());
    assert!(run(r#"{"decision":{"thresholds":{"review":"soon"}},"temporal":{}}"#).is_empty());
}

#[test]
fn single_source_needs_exactly_one_source() {
    let rules = vec![rule("a", "exact", "email", None, 1.0), rule("b", "exact", "id", None, 1.0)];
    let keys = blocking("standard", &["zip"]);
    let run = |n: usize| analyse_risks(&doc(QUIET), &rules, &keys, &survivorship(1), &sources(n));
    let flags = run(1);
    assert_eq!(codes(&flags), vec!["SINGLE_SOURCE"]);
    assert_eq!(flags[0].severity, "low");
    assert_eq!(flags[0].message, "Only one source — no cross-system identity resolution");
    assert_eq!(flags[0].recommendation, "Add additional sources for cross-system matching");
    assert!(run(0).is_empty());
    assert!(run(2).is_empty());
}

#[test]
fn missing_temporal_counts_by_presence() {
    let rules = vec![rule("a", "exact", "email", None, 1.0), rule("b", "exact", "id", None, 1.0)];
    let keys = blocking("standard", &["zip"]);
    let run = |text: &str| analyse_risks(&doc(text), &rules, &keys, &survivorship(1), &sources(2));
    let flags = run(r#"{"decision":{"thresholds":{"review":0.7}}}"#);
    assert_eq!(codes(&flags), vec!["MISSING_TEMPORAL"]);
    assert_eq!(flags[0].severity, "low");
    assert_eq!(
        flags[0].message,
        "No temporal configuration — identity resolution is not time-aware"
    );
    assert_eq!(
        flags[0].recommendation,
        "Add temporal config if entities have time-dependent attributes"
    );
    assert!(run(r#"{"decision":{"thresholds":{"review":0.7}},"temporal":null}"#).is_empty());
}

#[test]
fn bare_specification_without_sources_has_four_flags() {
    let flags = analyse_risks(&doc("{}"), &[], &blocking("none", &[]), &[], &[]);
    let pairs: Vec<(&str, &str)> =
        flags.iter().map(|f| (f.code.as_str(), f.severity.as_str())).collect();
    assert_eq!(
        pairs,
        vec![
            ("NO_BLOCKING", "critical"),
            ("NO_SURVIVORSHIP", "medium"),
            ("NO_REVIEW_THRESHOLD", "medium"),
            ("MISSING_TEMPORAL", "low"),
        ]
    );
}

#[test]
fn every_check_fires_in_the_fixed_order() {
    let rules = vec![rule("only", "fuzzy", "phone", Some(0.5), 0.99)];
    let flags = analyse_risks(&doc("{}"), &rules, &blocking("none", &[]), &[], &sources(1));
    assert_eq!(
        codes(&flags),
        vec![
            "NO_BLOCKING",
            "SINGLE_SIGNAL",
            "LOW_THRESHOLD",
            "HIGH_WEIGHT_FUZZY",
            "NO_SURVIVORSHIP",
            "PHONE_WITHOUT_BLOCKING",
            "NO_REVIEW_THRESHOLD",
            "SINGLE_SOURCE",
            "MISSING_TEMPORAL",
        ]
    );
}
