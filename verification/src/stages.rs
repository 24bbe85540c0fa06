//! The stage builder: renders the fixed eight-stage pipeline from the source
//! names, the match rules and the blocking analysis.

use crate::model::{
    lemma_take_next, views, BlockingAnalysis, BlockingKeyView, BlockingView, ExecutionStage, ExecutionStageView,
    MatchStrategySummary, MatchStrategyView,
};
use crate::text::{join, joined, occurs_in, same_text};
use vstd::prelude::*;
use vstd::string::*;

verus! {

/// Whether a rule is an exact rule.
pub open spec fn is_exact(m: MatchStrategyView) -> bool {
    m.match_type == "exact"@
}

/// The predicate that picks the exact rules, or the others.
pub open spec fn of_kind(exact: bool) -> spec_fn(MatchStrategyView) -> bool {
    |m: MatchStrategyView| is_exact(m) == exact
}

/// The algorithm of a rule, `default` where it names none.
pub open spec fn algorithm_or_default(m: MatchStrategyView) -> Seq<char> {
    match m.algorithm {
        Some(a) => a,
        None => "default"@,
    }
}

/// How a rule is listed in its stage: `name on field (w=weight)` for an
/// exact rule, `name on field via algorithm (w=weight)` for any other.
pub open spec fn rule_line(m: MatchStrategyView, exact: bool) -> Seq<char> {
    if exact {
        m.rule_name + " on "@ + m.field + " (w="@ + m.weight.shortest + ")"@
    } else {
        m.rule_name + " on "@ + m.field + " via "@ + algorithm_or_default(m) + " (w="@
            + m.weight.shortest + ")"@
    }
}

/// The lines of the rules of one kind, in the order of the rules.
pub open spec fn rule_lines(rules: Seq<MatchStrategyView>, exact: bool) -> Seq<Seq<char>> {
    rules.filter(of_kind(exact)).map_values(|m: MatchStrategyView| rule_line(m, exact))
}

/// The description of a matching stage: its rules' lines joined by commas,
/// or a fixed sentence where it has no rule.
pub open spec fn matching_description(rules: Seq<MatchStrategyView>, exact: bool) -> Seq<char> {
    if rule_lines(rules, exact).len() == 0 {
        if exact {
            "No exact match rules defined"@
        } else {
            "No fuzzy match rules defined"@
        }
    } else {
        joined(rule_lines(rules, exact), ", "@)
    }
}

/// How a blocking key is listed: `name (transformation)`.
pub open spec fn key_line(k: BlockingKeyView) -> Seq<char> {
    k.name + " ("@ + k.transformation + ")"@
}

/// The listing of the blocking keys, or a fixed sentence where there are none.
pub open spec fn keys_description(keys: Seq<BlockingKeyView>) -> Seq<char> {
    if keys.len() == 0 {
        "No blocking keys — full pairwise comparison"@
    } else {
        joined(keys.map_values(|k: BlockingKeyView| key_line(k)), ", "@)
    }
}

/// The description of the blocking stage: the strategy as configured, then
/// the keys.
pub open spec fn blocking_description(blocking: BlockingView) -> Seq<char> {
    "Blocking strategy: "@ + blocking.strategy + ". Keys: "@ + keys_description(blocking.keys)
}

/// The eight stages of the pipeline.
pub open spec fn stages_of(
    source_names: Seq<Seq<char>>,
    rules: Seq<MatchStrategyView>,
    blocking: BlockingView,
) -> Seq<ExecutionStageView> {
    seq![
        ExecutionStageView {
            stage: 1,
            name: "Normalize sources"@,
            description: "Ingest and normalize fields from: "@ + joined(source_names, ", "@),
            inputs: source_names,
            outputs: seq!["normalized_entities"@],
        },
        ExecutionStageView {
            stage: 2,
            name: "Generate blocking keys"@,
            description: blocking_description(blocking),
            inputs: seq!["normalized_entities"@],
            outputs: seq!["candidate_pairs"@],
        },
        ExecutionStageView {
            stage: 3,
            name: "Exact matches"@,
            description: matching_description(rules, true),
            inputs: seq!["candidate_pairs"@],
            outputs: seq!["exact_match_scores"@],
        },
        ExecutionStageView {
            stage: 4,
            name: "Fuzzy matches"@,
            description: matching_description(rules, false),
            inputs: seq!["candidate_pairs"@],
            outputs: seq!["fuzzy_match_scores"@],
        },
        ExecutionStageView {
            stage: 5,
            name: "Score & decide"@,
            description: "Aggregate weighted scores and apply thresholds"@,
            inputs: seq!["exact_match_scores"@, "fuzzy_match_scores"@],
            outputs: seq!["match_decisions"@],
        },
        ExecutionStageView {
            stage: 6,
            name: "Cluster entities"@,
            description: "Transitive closure via UnionFind to group matched entities"@,
            inputs: seq!["match_decisions"@],
            outputs: seq!["entity_clusters"@],
        },
        ExecutionStageView {
            stage: 7,
            name: "Apply survivorship"@,
            description: "Apply field-level survivorship rules to build golden records"@,
            inputs: seq!["entity_clusters"@],
            outputs: seq!["golden_records"@],
        },
        ExecutionStageView {
            stage: 8,
            name: "Emit outputs"@,
            description: "Produce canonical table, lineage table, and audit trail"@,
            inputs: seq!["golden_records"@],
            outputs: seq!["canonical_entities"@, "identity_lineage"@, "audit_trail"@],
        },
    ]
}

/// There are always eight stages, numbered 1 to 8 in order, and the second
/// one's description holds the blocking strategy as it was configured.
pub proof fn lemma_stage_numbers_and_strategy(
    source_names: Seq<Seq<char>>,
    rules: Seq<MatchStrategyView>,
    blocking: BlockingView,
)
    ensures
        stages_of(source_names, rules, blocking).len() == 8,
        forall|i: int|
            0 <= i < 8 ==> (#[trigger] stages_of(source_names, rules, blocking)[i]).stage == i + 1,
        occurs_in(blocking.strategy, stages_of(source_names, rules, blocking)[1].description),
{
    let description = stages_of(source_names, rules, blocking)[1].description;
    let lead = "Blocking strategy: "@;
    let start = lead.len() as int;
    assert(description.subrange(start, start + blocking.strategy.len()) =~= blocking.strategy);
}

fn copy_texts(items: &[String]) -> (r: Vec<String>)
    ensures
        r.deep_view() == items.deep_view(),
{
    let mut out: Vec<String> = Vec::new();
    let mut i: usize = 0;
    while i < items.len()
        invariant
            i <= items.len(),
            out.len() == i,
            forall|j: int| 0 <= j < i ==> out@[j]@ == items@[j]@,
        decreases items.len() - i,
    {
        out.push(items[i].clone());
        i += 1;
    }
    out
}

fn one_text(a: &str) -> (r: Vec<String>)
    ensures
        r.deep_view() == seq![a@],
{
    let mut out: Vec<String> = Vec::new();
    out.push(a.to_owned());
    out
}

fn two_texts(a: &str, b: &str) -> (r: Vec<String>)
    ensures
        r.deep_view() == seq![a@, b@],
{
    let mut out: Vec<String> = Vec::new();
    out.push(a.to_owned());
    out.push(b.to_owned());
    out
}

fn three_texts(a: &str, b: &str, c: &str) -> (r: Vec<String>)
    ensures
        r.deep_view() == seq![a@, b@, c@],
{
    let mut out: Vec<String> = Vec::new();
    out.push(a.to_owned());
    out.push(b.to_owned());
    out.push(c.to_owned());
    out
}

fn render_rule(rule: &MatchStrategySummary, exact: bool) -> (r: String)
    ensures
        r@ == rule_line(rule@, exact),
{
    let mut line = rule.rule_name.clone();
    line.append(" on ");
    line.append(rule.field.as_str());
    if !exact {
        line.append(" via ");
        match &rule.algorithm {
            Some(a) => line.append(a.as_str()),
            None => line.append("default"),
        }
    }
    line.append(" (w=");
    line.append(rule.weight.shortest.as_str());
    line.append(")");
    line
}

fn render_rules(rules: &[MatchStrategySummary], exact: bool) -> (r: String)
    ensures
        r@ == matching_description(views(rules@), exact),
{
    let mut lines: Vec<String> = Vec::new();
    let mut i: usize = 0;
    while i < rules.len()
        invariant
            i <= rules.len(),
            lines.deep_view() == rule_lines(views(rules@).take(i as int), exact),
        decreases rules.len() - i,
    {
        let ghost before = views(rules@).take(i as int);
        let ghost prior = lines.deep_view();
        proof {
            lemma_take_next(views(rules@), i as int);
            before.lemma_filter_push(rules@[i as int]@, of_kind(exact));
        }
        if same_text(rules[i].match_type.as_str(), "exact") == exact {
            lines.push(render_rule(&rules[i], exact));
            assert(lines.deep_view() =~= prior.push(rule_line(rules@[i as int]@, exact)));
        }
        i += 1;
    }
    proof {
        assert(views(rules@).take(rules.len() as int) =~= views(rules@));
    }
    if lines.len() == 0 {
        if exact {
            "No exact match rules defined".to_owned()
        } else {
            "No fuzzy match rules defined".to_owned()
        }
    } else {
        join(&lines, ", ")
    }
}

fn render_keys(blocking: &BlockingAnalysis) -> (r: String)
    ensures
        r@ == keys_description(blocking@.keys),
{
    if blocking.keys.len() == 0 {
        return "No blocking keys — full pairwise comparison".to_owned();
    }
    let mut lines: Vec<String> = Vec::new();
    let mut i: usize = 0;
    while i < blocking.keys.len()
        invariant
            i <= blocking.keys.len(),
            lines.len() == i,
            forall|j: int| 0 <= j < i ==> lines@[j]@ == key_line(blocking.keys@[j]@),
        decreases blocking.keys.len() - i,
    {
        let mut line = blocking.keys[i].name.clone();
        line.append(" (");
        line.append(blocking.keys[i].transformation.as_str());
        line.append(")");
        lines.push(line);
        i += 1;
    }
    assert(lines.deep_view() =~= blocking@.keys.map_values(|k: BlockingKeyView| key_line(k)));
    join(&lines, ", ")
}

fn stage(
    number: usize,
    name: &str,
    description: String,
    inputs: Vec<String>,
    outputs: Vec<String>,
) -> (r: ExecutionStage)
    ensures
        r@ == (ExecutionStageView {
            stage: number as nat,
            name: name@,
            description: description@,
            inputs: inputs.deep_view(),
            outputs: outputs.deep_view(),
        }),
{
    ExecutionStage { stage: number, name: name.to_owned(), description, inputs, outputs }
}

/// Builds the pipeline: always eight stages, numbered 1 to 8 in order, with
/// fixed names and channels. The descriptions of the first four are rendered
/// from the arguments.
pub fn build_execution_stages(
    source_names: &[String],
    match_strategies: &[MatchStrategySummary],
    blocking: &BlockingAnalysis,
) -> (r: Vec<ExecutionStage>)
    ensures
        views(r@) == stages_of(source_names.deep_view(), views(match_strategies@), blocking@),
        r.len() == 8,
        forall|i: int| 0 <= i < 8 ==> (#[trigger] r@[i]).stage == i + 1,
{
    let names = copy_texts(source_names);
    let mut normalize = "Ingest and normalize fields from: ".to_owned();
    normalize.append(join(&names, ", ").as_str());
    let mut block = "Blocking strategy: ".to_owned();
    block.append(blocking.strategy.as_str());
    block.append(". Keys: ");
    block.append(render_keys(blocking).as_str());
    let exact_description = render_rules(match_strategies, true);
    let fuzzy_description = render_rules(match_strategies, false);

    let mut out: Vec<ExecutionStage> = Vec::new();
    out.push(stage(1, "Normalize sources", normalize, names, one_text("normalized_entities")));
    out.push(
        stage(
            2,
            "Generate blocking keys",
            block,
            one_text("normalized_entities"),
            one_text("candidate_pairs"),
        ),
    );
    out.push(
        stage(
            3,
            "Exact matches",
            exact_description,
            one_text("candidate_pairs"),
            one_text("exact_match_scores"),
        ),
    );
    out.push(
        stage(
            4,
            "Fuzzy matches",
            fuzzy_description,
            one_text("candidate_pairs"),
            one_text("fuzzy_match_scores"),
        ),
    );
    out.push(
        stage(
            5,
            "Score & decide",
            "Aggregate weighted scores and apply thresholds".to_owned(),
            two_texts("exact_match_scores", "fuzzy_match_scores"),
            one_text("match_decisions"),
        ),
    );
    out.push(
        stage(
            6,
            "Cluster entities",
            "Transitive closure via UnionFind to group matched entities".to_owned(),
            one_text("match_decisions"),
            one_text("entity_clusters"),
        ),
    );
    out.push(
        stage(
            7,
            "Apply survivorship",
            "Apply field-level survivorship rules to build golden records".to_owned(),
            one_text("entity_clusters"),
            one_text("golden_records"),
        ),
    );
    out.push(
        stage(
            8,
            "Emit outputs",
            "Produce canonical table, lineage table, and audit trail".to_owned(),
            one_text("golden_records"),
            three_texts("canonical_entities", "identity_lineage", "audit_trail"),
        ),
    );
    out
}

} // verus!
