use kanoniv_plan::{generate_plan, hash, parse, plan_document, PlanError, PlanResult};

const SCENARIO: &str = "
entity:
  name: customer
identity_version: v1
sources:
  - name: crm
    system: salesforce
    attributes:
      email: string
      phone: string
rules:
  - name: email_exact
    type: exact
    field: email
    weight: 1.0
  - name: phone_fuzzy
    type: fuzzy
    field: phone
    algorithm: levenshtein
    threshold: 0.6
    weight: 0.95
";

const SCENARIO_HASH: &str =
    "sha256:f831f37eb4797c61aa6121accf507e76c133a64eede84678b60f8de2571c5cc1";

fn codes(plan: &PlanResult) -> Vec<(String, String)> {
    plan.risk_flags.iter().map(|f| (f.code.clone(), f.severity.clone())).collect()
}

fn pair(code: &str, severity: &str) -> (String, String) {
    (code.to_string(), severity.to_string())
}

#[test]
fn scenario_flags_in_order() {
    let plan = generate_plan(SCENARIO).unwrap();
    assert_eq!(
        codes(&plan),
        vec![
            pair("NO_BLOCKING", "critical"),
            pair("LOW_THRESHOLD", "high"),
            pair("HIGH_WEIGHT_FUZZY", "medium"),
            pair("NO_SURVIVORSHIP", "medium"),
            pair("PHONE_WITHOUT_BLOCKING", "high"),
            pair("NO_REVIEW_THRESHOLD", "medium"),
            pair("SINGLE_SOURCE", "low"),
            pair("MISSING_TEMPORAL", "low"),
        ]
    );
    assert_eq!(plan.risk_flags.len(), 8);
    assert!(plan.risk_flags.iter().all(|f| f.code != "SINGLE_SIGNAL"));
}

#[test]
fn scenario_messages_name_the_phone_rule() {
    let plan = generate_plan(SCENARIO).unwrap();
    assert_eq!(
        plan.risk_flags[1].message,
        "Rule 'phone_fuzzy' has threshold 0.60 — risk of over-merging"
    );
    assert_eq!(
        plan.risk_flags[1].recommendation,
        "Consider raising threshold to 0.8+ or adding verification rules"
    );
    assert_eq!(
        plan.risk_flags[2].message,
        "Fuzzy rule 'phone_fuzzy' has weight 0.95 — high trust in approximate matching"
    );
    assert_eq!(
        plan.risk_flags[2].recommendation,
        "Verify fuzzy algorithm accuracy or reduce weight"
    );
}

#[test]
fn scenario_identity_and_summaries() {
    let plan = generate_plan(SCENARIO).unwrap();
    assert_eq!(plan.entity, "customer");
    assert_eq!(plan.identity_version, "v1");
    assert_eq!(plan.sources.len(), 1);
    assert_eq!(plan.sources[0].name, "crm");
    assert_eq!(plan.sources[0].system, "salesforce");
    assert_eq!(plan.sources[0].field_count, 2);
    assert_eq!(plan.match_strategies.len(), 2);
    assert_eq!(plan.match_strategies[0].evaluation_order, 3);
    assert_eq!(plan.match_strategies[1].evaluation_order, 4);
    assert_eq!(plan.match_strategies[1].algorithm.as_deref(), Some("levenshtein"));
    assert_eq!(plan.match_strategies[1].weight.bits, 0.95f64.to_bits());
    assert_eq!(plan.match_strategies[1].threshold.as_ref().unwrap().bits, 0.6f64.to_bits());
    assert!(plan.match_strategies[0].threshold.is_none());
    assert!(plan.survivorship_summary.is_empty());
    assert_eq!(plan.blocking_analysis.strategy, "none");
    assert_eq!(plan.blocking_analysis.estimated_reduction, "none");
    assert_eq!(plan.blocking_analysis.warnings.len(), 1);
}

#[test]
fn scenario_summary_text() {
    let plan = generate_plan(SCENARIO).unwrap();
    let expected = "  Identity:     customer (v1)\n  Sources:      1 (crm)\n  Signals:      email (exact, w=1), phone (fuzzy/levenshtein, w=0.95)\n  Blocking:     none\n  Thresholds:   not configured\n  Stages:       8 execution stages\n  Survivorship: 0 fields configured\n  Risk flags:   1 critical, 2 high, 3 medium\n  Plan hash:    sha256:f831f37e...";
    assert_eq!(plan.summary, expected);
}

#[test]
fn scenario_hash() {
    let plan = generate_plan(SCENARIO).unwrap();
    assert_eq!(plan.plan_hash, SCENARIO_HASH);
    assert_eq!(hash(SCENARIO).unwrap(), SCENARIO_HASH);
}

#[test]
fn compiling_twice_gives_the_same_plan() {
    let first = generate_plan(SCENARIO).unwrap();
    let second = generate_plan(SCENARIO).unwrap();
    assert_eq!(first.plan_hash, second.plan_hash);
    assert_eq!(format!("{:?}", first), format!("{:?}", second));
}

#[test]
fn hash_ignores_key_order_whitespace_and_comments() {
    let a = "entity:\n  name: person\nidentity_version: v2\nblocking:\n  strategy: standard\n";
    let b = "# reordered\nblocking: {strategy: standard}   # inline\nidentity_version:   v2\n\nentity: {name: person}\n";
    assert_eq!(hash(a).unwrap(), hash(b).unwrap());
    assert_eq!(generate_plan(a).unwrap().plan_hash, generate_plan(b).unwrap().plan_hash);
    assert_eq!(
        format!("{:?}", generate_plan(a).unwrap()),
        format!("{:?}", generate_plan(b).unwrap())
    );
}

#[test]
fn hash_changes_with_a_value() {
    let a = "entity:\n  name: person\n";
    let b = "entity:\n  name: persons\n";
    assert_ne!(hash(a).unwrap(), hash(b).unwrap());
}

#[test]
fn empty_mapping_compiles_with_defaults() {
    let plan = generate_plan("{}").unwrap();
    assert_eq!(plan.entity, "unknown");
    assert_eq!(plan.identity_version, "unknown");
    assert!(plan.sources.is_empty());
    assert!(plan.match_strategies.is_empty());
    assert!(plan.survivorship_summary.is_empty());
    assert_eq!(plan.execution_stages.len(), 8);
    assert_eq!(
        plan.plan_hash,
        "sha256:44136fa355b3678a1146ad16f7e8649e94fb4fc21fe77e8310c060f61caaff8a"
    );
    assert_eq!(
        codes(&plan),
        vec![
            pair("NO_BLOCKING", "critical"),
            pair("NO_SURVIVORSHIP", "medium"),
            pair("NO_REVIEW_THRESHOLD", "medium"),
            pair("MISSING_TEMPORAL", "low"),
        ]
    );
    let expected = "  Identity:     unknown (unknown)\n  Sources:      0 ()\n  Signals:      \n  Blocking:     none\n  Thresholds:   not configured\n  Stages:       8 execution stages\n  Survivorship: 0 fields configured\n  Risk flags:   1 critical, 0 high, 2 medium\n  Plan hash:    sha256:44136fa3...";
    assert_eq!(plan.summary, expected);
}

#[test]
fn bare_specification_with_one_source_has_five_flags() {
    let plan = generate_plan("sources:\n  - name: crm\n    system: salesforce\n").unwrap();
    assert_eq!(
        codes(&plan),
        vec![
            pair("NO_BLOCKING", "critical"),
            pair("NO_SURVIVORSHIP", "medium"),
            pair("NO_REVIEW_THRESHOLD", "medium"),
            pair("SINGLE_SOURCE", "low"),
            pair("MISSING_TEMPORAL", "low"),
        ]
    );
}

#[test]
fn empty_text_is_the_null_document() {
    let plan = generate_plan("").unwrap();
    assert_eq!(plan.entity, "unknown");
    assert_eq!(
        plan.plan_hash,
        "sha256:74234e98afe7498fb5daf1f36ac2d78acc339464f950703b8c019892f982b90b"
    );
}

#[test]
fn malformed_text_is_a_parse_error() {
    let outcome = generate_plan("entity: [unclosed");
    match outcome {
        Err(PlanError::Parse(message)) => assert!(!message.is_empty()),
        other => panic!("expected a parse error, got {:?}", other.map(|p| p.summary)),
    }
    assert!(matches!(hash("entity: [unclosed"), Err(PlanError::Parse(_))));
    assert!(matches!(parse("a: b: c: ["), Err(PlanError::Parse(_))));
}

#[test]
fn parse_error_is_described_with_the_parser_message() {
    match parse("entity: [unclosed") {
        Err(e) => {
            let line = e.describe();
            assert!(line.starts_with("Failed to parse YAML for plan generation: "));
            assert!(line.len() > "Failed to parse YAML for plan generation: ".len());
        }
        Ok(_) => panic!("expected a parse error"),
    }
    let e = PlanError::Serialize("boom".to_string());
    assert_eq!(e.describe(), "Failed to serialize the specification: boom");
}

#[test]
fn parse_reads_the_document() {
    let doc = parse("a: 1\nb: [true, null, x]\n").unwrap();
    assert_eq!(doc["a"], serde_json::Value::from(1));
    assert_eq!(doc["b"][0], serde_json::Value::Bool(true));
    assert_eq!(doc["b"][1], serde_json::Value::Null);
    assert_eq!(doc["b"][2], serde_json::Value::from("x"));
}

#[test]
fn plan_document_agrees_with_generate_plan() {
    let doc = parse(SCENARIO).unwrap();
    let from_document = plan_document(&doc).unwrap();
    let from_text = generate_plan(SCENARIO).unwrap();
    assert_eq!(format!("{:?}", from_document), format!("{:?}", from_text));
}

#[test]
fn stages_are_numbered_and_name_the_strategy() {
    let plan = generate_plan(
        "blocking:\n  strategy: sorted_neighbourhood\n  keys:\n    - field: zip\n      transform: prefix3\n",
    )
    .unwrap();
    assert_eq!(plan.execution_stages.len(), 8);
    for (i, stage) in plan.execution_stages.iter().enumerate() {
        assert_eq!(stage.stage, i + 1);
    }
    assert_eq!(
        plan.execution_stages[1].description,
        "Blocking strategy: sorted_neighbourhood. Keys: zip (prefix3)"
    );
    assert!(plan.execution_stages[1].description.contains("sorted_neighbourhood"));
}

#[test]
fn summary_counts_match_the_flags() {
    let plan = generate_plan(SCENARIO).unwrap();
    let count = |s: &str| plan.risk_flags.iter().filter(|f| f.severity == s).count();
    let line = format!(
        "  Risk flags:   {} critical, {} high, {} medium\n",
        count("critical"),
        count("high"),
        count("medium")
    );
    assert!(plan.summary.contains(&line));
    assert_eq!((count("critical"), count("high"), count("medium")), (1, 2, 3));
}
