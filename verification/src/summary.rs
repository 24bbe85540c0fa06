//! The summary formatter: one text block of fixed layout that reports what
//! the plan holds.

use crate::document::{child, descend, get_measure, measure_at, member, member_of, node_of, Node};
use crate::model::{
    lemma_take_next, views, BlockingAnalysis, BlockingKeyView, BlockingView, MatchStrategySummary,
    MatchStrategyView, PlanSource, PlanSourceView, RiskFlag, RiskFlagView, SurvivorshipSummary,
};
use crate::number::MeasureView;
use crate::text::{
    decimal, decimal_text, decimal_value, join, joined, leading, lemma_decimal_round_trip,
    occurs_in, same_text,
};
use vstd::prelude::*;
use vstd::string::*;

verus! {

/// How a match rule is listed: `field (type, w=weight)`, with the algorithm
/// behind the type where the rule names one.
pub open spec fn signal_line(m: MatchStrategyView) -> Seq<char> {
    match m.algorithm {
        Some(a) => m.field + " ("@ + m.match_type + "/"@ + a + ", w="@ + m.weight.shortest + ")"@,
        None => m.field + " ("@ + m.match_type + ", w="@ + m.weight.shortest + ")"@,
    }
}

/// The names of the sources, in order.
pub open spec fn source_names(sources: Seq<PlanSourceView>) -> Seq<Seq<char>> {
    sources.map_values(|s: PlanSourceView| s.name)
}

/// The names of the blocking keys joined by commas, or `none`.
pub open spec fn blocking_line(keys: Seq<BlockingKeyView>) -> Seq<char> {
    if keys.len() == 0 {
        "none"@
    } else {
        joined(keys.map_values(|k: BlockingKeyView| k.name), ", "@)
    }
}

/// The configured threshold of the given name, where it is a number.
pub open spec fn threshold_of(doc: Node, name: Seq<char>) -> Option<MeasureView> {
    measure_at(descend(descend(child(doc, "decision"@), "thresholds"@), name))
}

/// The thresholds line: both thresholds, the merge threshold alone, or
/// `not configured` where there is no merge threshold.
pub open spec fn thresholds_line(merge: Option<MeasureView>, review: Option<MeasureView>) -> Seq<
    char,
> {
    match (merge, review) {
        (Some(m), Some(r)) => "merge >= "@ + m.shortest + ", review >= "@ + r.shortest,
        (Some(m), None) => "merge >= "@ + m.shortest,
        _ => "not configured"@,
    }
}

/// The predicate that picks the flags of one severity.
pub open spec fn of_severity(severity: Seq<char>) -> spec_fn(RiskFlagView) -> bool {
    |f: RiskFlagView| f.severity == severity
}

/// The number of flags of one severity.
pub open spec fn severity_count(flags: Seq<RiskFlagView>, severity: Seq<char>) -> nat {
    flags.filter(of_severity(severity)).len()
}

/// The line that reports the flags by severity.
pub open spec fn risk_line(flags: Seq<RiskFlagView>) -> Seq<char> {
    "  Risk flags:   "@ + decimal_text(severity_count(flags, "critical"@)) + " critical, "@
        + decimal_text(severity_count(flags, "high"@)) + " high, "@ + decimal_text(
        severity_count(flags, "medium"@),
    ) + " medium"@
}

/// The first fifteen characters of the hash, or all of a shorter one.
pub open spec fn short_hash(plan_hash: Seq<char>) -> Seq<char> {
    if plan_hash.len() > 15 {
        plan_hash.take(15)
    } else {
        plan_hash
    }
}

/// The lines of the summary that stand before the risk line.
pub open spec fn summary_head(
    entity: Seq<char>,
    identity_version: Seq<char>,
    sources: Seq<PlanSourceView>,
    rules: Seq<MatchStrategyView>,
    blocking: BlockingView,
    doc: Node,
    survivorship_count: nat,
) -> Seq<char> {
    "  Identity:     "@ + entity + " ("@ + identity_version + ")\n  Sources:      "@
        + decimal_text(sources.len()) + " ("@ + joined(source_names(sources), ", "@)
        + ")\n  Signals:      "@ + joined(
        rules.map_values(|m: MatchStrategyView| signal_line(m)),
        ", "@,
    ) + "\n  Blocking:     "@ + blocking_line(blocking.keys) + "\n  Thresholds:   "@
        + thresholds_line(threshold_of(doc, "match"@), threshold_of(doc, "review"@))
        + "\n  Stages:       8 execution stages\n  Survivorship: "@ + decimal_text(
        survivorship_count,
    ) + " fields configured\n"@
}

/// The line of the summary that stands behind the risk line.
pub open spec fn summary_tail(plan_hash: Seq<char>) -> Seq<char> {
    "\n  Plan hash:    "@ + short_hash(plan_hash) + "..."@
}

/// The whole summary.
pub open spec fn summary_of(
    entity: Seq<char>,
    identity_version: Seq<char>,
    sources: Seq<PlanSourceView>,
    rules: Seq<MatchStrategyView>,
    blocking: BlockingView,
    doc: Node,
    survivorship_count: nat,
    flags: Seq<RiskFlagView>,
    plan_hash: Seq<char>,
) -> Seq<char> {
    summary_head(entity, identity_version, sources, rules, blocking, doc, survivorship_count)
        + risk_line(flags) + summary_tail(plan_hash)
}

/// The summary holds the risk line, and the three numbers written in that
/// line read back as the numbers of critical, high and medium flags.
pub proof fn lemma_summary_reports_counts(
    entity: Seq<char>,
    identity_version: Seq<char>,
    sources: Seq<PlanSourceView>,
    rules: Seq<MatchStrategyView>,
    blocking: BlockingView,
    doc: Node,
    survivorship_count: nat,
    flags: Seq<RiskFlagView>,
    plan_hash: Seq<char>,
)
    ensures
        occurs_in(
            risk_line(flags),
            summary_of(
                entity,
                identity_version,
                sources,
                rules,
                blocking,
                doc,
                survivorship_count,
                flags,
                plan_hash,
            ),
        ),
        decimal_value(decimal_text(severity_count(flags, "critical"@))) == severity_count(
            flags,
            "critical"@,
        ),
        decimal_value(decimal_text(severity_count(flags, "high"@))) == severity_count(
            flags,
            "high"@,
        ),
        decimal_value(decimal_text(severity_count(flags, "medium"@))) == severity_count(
            flags,
            "medium"@,
        ),
{
    lemma_decimal_round_trip(severity_count(flags, "critical"@));
    lemma_decimal_round_trip(severity_count(flags, "high"@));
    lemma_decimal_round_trip(severity_count(flags, "medium"@));
    let head = summary_head(
        entity,
        identity_version,
        sources,
        rules,
        blocking,
        doc,
        survivorship_count,
    );
    let whole = summary_of(
        entity,
        identity_version,
        sources,
        rules,
        blocking,
        doc,
        survivorship_count,
        flags,
        plan_hash,
    );
    let start = head.len() as int;
    assert(whole.subrange(start, start + risk_line(flags).len()) =~= risk_line(flags));
}

/// Counts the flags of one severity.
pub fn count_severity(flags: &[RiskFlag], severity: &str) -> (r: usize)
    ensures
        r == severity_count(views(flags@), severity@),
{
    let mut count: usize = 0;
    let mut i: usize = 0;
    proof {
        reveal_with_fuel(Seq::filter, 1);
    }
    while i < flags.len()
        invariant
            i <= flags.len(),
            count <= i,
            count == severity_count(views(flags@).take(i as int), severity@),
        decreases flags.len() - i,
    {
        proof {
            lemma_take_next(views(flags@), i as int);
            views(flags@).take(i as int).lemma_filter_push(
                flags@[i as int]@,
                of_severity(severity@),
            );
        }
        if same_text(flags[i].severity.as_str(), severity) {
            count += 1;
        }
        i += 1;
    }
    proof {
        assert(views(flags@).take(flags.len() as int) =~= views(flags@));
    }
    count
}

fn render_signal(rule: &MatchStrategySummary) -> (r: String)
    ensures
        r@ == signal_line(rule@),
{
    let mut line = rule.field.clone();
    line.append(" (");
    line.append(rule.match_type.as_str());
    match &rule.algorithm {
        Some(a) => {
            line.append("/");
            line.append(a.as_str());
        },
        None => {},
    }
    line.append(", w=");
    line.append(rule.weight.shortest.as_str());
    line.append(")");
    line
}

fn render_signals(rules: &[MatchStrategySummary]) -> (r: String)
    ensures
        r@ == joined(views(rules@).map_values(|m: MatchStrategyView| signal_line(m)), ", "@),
{
    let mut lines: Vec<String> = Vec::new();
    let mut i: usize = 0;
    while i < rules.len()
        invariant
            i <= rules.len(),
            lines.len() == i,
            forall|j: int| 0 <= j < i ==> lines@[j]@ == signal_line(rules@[j]@),
        decreases rules.len() - i,
    {
        lines.push(render_signal(&rules[i]));
        i += 1;
    }
    assert(lines.deep_view() =~= views(rules@).map_values(|m: MatchStrategyView| signal_line(m)));
    join(&lines, ", ")
}

fn render_source_names(sources: &[PlanSource]) -> (r: String)
    ensures
        r@ == joined(source_names(views(sources@)), ", "@),
{
    let mut names: Vec<String> = Vec::new();
    let mut i: usize = 0;
    while i < sources.len()
        invariant
            i <= sources.len(),
            names.len() == i,
            forall|j: int| 0 <= j < i ==> names@[j]@ == sources@[j].name@,
        decreases sources.len() - i,
    {
        names.push(sources[i].name.clone());
        i += 1;
    }
    assert(names.deep_view() =~= source_names(views(sources@)));
    join(&names, ", ")
}

fn render_blocking(blocking: &BlockingAnalysis) -> (r: String)
    ensures
        r@ == blocking_line(blocking@.keys),
{
    if blocking.keys.len() == 0 {
        return "none".to_owned();
    }
    let mut names: Vec<String> = Vec::new();
    let mut i: usize = 0;
    while i < blocking.keys.len()
        invariant
            i <= blocking.keys.len(),
            names.len() == i,
            forall|j: int| 0 <= j < i ==> names@[j]@ == blocking.keys@[j].name@,
        decreases blocking.keys.len() - i,
    {
        names.push(blocking.keys[i].name.clone());
        i += 1;
    }
    assert(names.deep_view() =~= blocking@.keys.map_values(|k: BlockingKeyView| k.name));
    join(&names, ", ")
}

fn render_thresholds(spec: &serde_json::Value) -> (r: String)
    ensures
        r@ == thresholds_line(
            threshold_of(node_of(*spec), "match"@),
            threshold_of(node_of(*spec), "review"@),
        ),
{
    let thresholds = member_of(member(spec, "decision"), "thresholds");
    let merge = get_measure(member_of(thresholds, "match"));
    let review = get_measure(member_of(thresholds, "review"));
    match merge {
        Some(m) => {
            let mut line = "merge >= ".to_owned();
            line.append(m.shortest.as_str());
            match review {
                Some(r) => {
                    line.append(", review >= ");
                    line.append(r.shortest.as_str());
                },
                None => {},
            }
            line
        },
        None => "not configured".to_owned(),
    }
}

/// Renders the summary: identity, sources, signals, blocking keys,
/// thresholds, the stage count, the number of survivorship rules, the
/// numbers of critical, high and medium flags, and the start of the hash.
pub fn build_summary(
    entity: &str,
    identity_version: &str,
    sources: &[PlanSource],
    match_strategies: &[MatchStrategySummary],
    blocking: &BlockingAnalysis,
    spec: &serde_json::Value,
    survivorship: &[SurvivorshipSummary],
    risk_flags: &[RiskFlag],
    plan_hash: &str,
) -> (r: String)
    ensures
        r@ == summary_of(
            entity@,
            identity_version@,
            views(sources@),
            views(match_strategies@),
            blocking@,
            node_of(*spec),
            survivorship@.len(),
            views(risk_flags@),
            plan_hash@,
        ),
{
    let mut out = "  Identity:     ".to_owned();
    out.append(entity);
    out.append(" (");
    out.append(identity_version);
    out.append(")\n  Sources:      ");
    out.append(decimal(sources.len()).as_str());
    out.append(" (");
    out.append(render_source_names(sources).as_str());
    out.append(")\n  Signals:      ");
    out.append(render_signals(match_strategies).as_str());
    out.append("\n  Blocking:     ");
    out.append(render_blocking(blocking).as_str());
    out.append("\n  Thresholds:   ");
    out.append(render_thresholds(spec).as_str());
    out.append("\n  Stages:       8 execution stages\n  Survivorship: ");
    out.append(decimal(survivorship.len()).as_str());
    out.append(" fields configured\n");
    out.append("  Risk flags:   ");
    out.append(decimal(count_severity(risk_flags, "critical")).as_str());
    out.append(" critical, ");
    out.append(decimal(count_severity(risk_flags, "high")).as_str());
    out.append(" high, ");
    out.append(decimal(count_severity(risk_flags, "medium")).as_str());
    out.append(" medium");
    out.append("\n  Plan hash:    ");
    out.append(leading(plan_hash, 15));
    out.append("...");
    out
}

} // verus!
