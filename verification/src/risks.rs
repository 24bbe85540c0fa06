//! The risk analysis: nine fixed checks, evaluated in a fixed order. Each
//! adds no flag, one flag, or one flag for each offending rule; the flags
//! come out in the order of the checks.

use crate::blocking::unblocked;
use crate::document::{child, descend, member, member_of, node_of, Node};
use crate::model::{
    lemma_take_next, views, BlockingAnalysis, BlockingKeyView, BlockingView, MatchStrategySummary,
    MatchStrategyView, PlanSource, RiskFlag, RiskFlagView, SurvivorshipSummary,
};
use crate::number::{less_than, EIGHT_TENTHS, NINE_TENTHS};
use crate::stages::is_exact;
use crate::text::{contains_text, occurs_in, same_text};
use vstd::prelude::*;
use vstd::string::*;

verus! {

/// No blocking is configured: every pair of records is compared.
pub open spec fn no_blocking_flag() -> RiskFlagView {
    RiskFlagView {
        severity: "critical"@,
        code: "NO_BLOCKING"@,
        message: "No blocking keys defined — all pairs will be compared (O(n\u{00B2}))"@,
        recommendation: "Add blocking keys to reduce comparison space"@,
    }
}

/// The resolution rests on one match rule.
pub open spec fn single_signal_flag() -> RiskFlagView {
    RiskFlagView {
        severity: "high"@,
        code: "SINGLE_SIGNAL"@,
        message: "Only one match rule — identity resolution depends on a single signal"@,
        recommendation: "Add additional match rules for more robust identity resolution"@,
    }
}

/// An approximate rule accepts matches below eight tenths.
pub open spec fn low_threshold_flag(m: MatchStrategyView) -> RiskFlagView {
    RiskFlagView {
        severity: "high"@,
        code: "LOW_THRESHOLD"@,
        message: "Rule '"@ + m.rule_name + "' has threshold "@ + (match m.threshold {
            Some(t) => t.two_places,
            None => Seq::empty(),
        }) + " — risk of over-merging"@,
        recommendation: "Consider raising threshold to 0.8+ or adding verification rules"@,
    }
}

/// An approximate rule carries a weight above nine tenths.
pub open spec fn high_weight_flag(m: MatchStrategyView) -> RiskFlagView {
    RiskFlagView {
        severity: "medium"@,
        code: "HIGH_WEIGHT_FUZZY"@,
        message: "Fuzzy rule '"@ + m.rule_name + "' has weight "@ + m.weight.two_places
            + " — high trust in approximate matching"@,
        recommendation: "Verify fuzzy algorithm accuracy or reduce weight"@,
    }
}

/// No survivorship rule is declared.
pub open spec fn no_survivorship_flag() -> RiskFlagView {
    RiskFlagView {
        severity: "medium"@,
        code: "NO_SURVIVORSHIP"@,
        message: "No survivorship rules defined — field selection will be arbitrary"@,
        recommendation: "Define survivorship rules to control golden record field selection"@,
    }
}

/// A rule matches on a phone field and no blocking key is built on one.
pub open spec fn phone_flag() -> RiskFlagView {
    RiskFlagView {
        severity: "high"@,
        code: "PHONE_WITHOUT_BLOCKING"@,
        message: "Phone match rule without phone-based blocking key — phone reuse risk"@,
        recommendation: "Add a phone-based blocking key (e.g., area code)"@,
    }
}

/// No review threshold is configured.
pub open spec fn no_review_flag() -> RiskFlagView {
    RiskFlagView {
        severity: "medium"@,
        code: "NO_REVIEW_THRESHOLD"@,
        message: "No review threshold — all decisions are merge-or-reject with no review band"@,
        recommendation: "Add a review threshold for ambiguous matches"@,
    }
}

/// Exactly one source is declared.
pub open spec fn single_source_flag() -> RiskFlagView {
    RiskFlagView {
        severity: "low"@,
        code: "SINGLE_SOURCE"@,
        message: "Only one source — no cross-system identity resolution"@,
        recommendation: "Add additional sources for cross-system matching"@,
    }
}

/// The document has no temporal configuration.
pub open spec fn missing_temporal_flag() -> RiskFlagView {
    RiskFlagView {
        severity: "low"@,
        code: "MISSING_TEMPORAL"@,
        message: "No temporal configuration — identity resolution is not time-aware"@,
        recommendation: "Add temporal config if entities have time-dependent attributes"@,
    }
}

/// The flag where the condition holds, else nothing.
pub open spec fn when(condition: bool, flag: RiskFlagView) -> Seq<RiskFlagView> {
    if condition {
        seq![flag]
    } else {
        Seq::empty()
    }
}

/// Whether a rule is approximate and declares a threshold below eight tenths.
pub open spec fn has_low_threshold(m: MatchStrategyView) -> bool {
    match m.threshold {
        Some(t) => less_than(t.bits, EIGHT_TENTHS) && !is_exact(m),
        None => false,
    }
}

/// Whether a rule is approximate and weighs more than nine tenths.
pub open spec fn has_high_weight(m: MatchStrategyView) -> bool {
    !is_exact(m) && less_than(NINE_TENTHS, m.weight.bits)
}

/// The predicate that picks the rules with a low threshold.
pub open spec fn low_threshold_rules() -> spec_fn(MatchStrategyView) -> bool {
    |m: MatchStrategyView| has_low_threshold(m)
}

/// The predicate that picks the rules with a high weight.
pub open spec fn high_weight_rules() -> spec_fn(MatchStrategyView) -> bool {
    |m: MatchStrategyView| has_high_weight(m)
}

/// One flag for each rule with a low threshold, in the order of the rules.
pub open spec fn low_threshold_flags(rules: Seq<MatchStrategyView>) -> Seq<RiskFlagView> {
    rules.filter(low_threshold_rules()).map_values(|m: MatchStrategyView| low_threshold_flag(m))
}

/// One flag for each rule with a high weight, in the order of the rules.
pub open spec fn high_weight_flags(rules: Seq<MatchStrategyView>) -> Seq<RiskFlagView> {
    rules.filter(high_weight_rules()).map_values(|m: MatchStrategyView| high_weight_flag(m))
}

/// Whether some rule matches on a field whose name holds `phone`.
pub open spec fn some_phone_rule(rules: Seq<MatchStrategyView>) -> bool {
    exists|i: int| 0 <= i < rules.len() && occurs_in("phone"@, (#[trigger] rules[i]).field)
}

/// Whether some blocking key has a name that holds `phone`.
pub open spec fn some_phone_key(keys: Seq<BlockingKeyView>) -> bool {
    exists|i: int| 0 <= i < keys.len() && occurs_in("phone"@, (#[trigger] keys[i]).name)
}

/// Whether the document configures a review threshold, of whatever value.
pub open spec fn has_review_threshold(doc: Node) -> bool {
    descend(descend(child(doc, "decision"@), "thresholds"@), "review"@) is Some
}

/// The flags of the whole analysis, in the order of the checks.
pub open spec fn risks_of(
    doc: Node,
    rules: Seq<MatchStrategyView>,
    blocking: BlockingView,
    survivorship_count: nat,
    source_count: nat,
) -> Seq<RiskFlagView> {
    when(unblocked(blocking.strategy, blocking.keys.len()), no_blocking_flag()) + when(
        rules.len() == 1,
        single_signal_flag(),
    ) + low_threshold_flags(rules) + high_weight_flags(rules) + when(
        survivorship_count == 0,
        no_survivorship_flag(),
    ) + when(some_phone_rule(rules) && !some_phone_key(blocking.keys), phone_flag()) + when(
        !has_review_threshold(doc),
        no_review_flag(),
    ) + when(source_count == 1, single_source_flag()) + when(
        child(doc, "temporal"@) is None,
        missing_temporal_flag(),
    )
}

fn flag(severity: &str, code: &str, message: String, recommendation: &str) -> (r: RiskFlag)
    ensures
        r@ == (RiskFlagView {
            severity: severity@,
            code: code@,
            message: message@,
            recommendation: recommendation@,
        }),
{
    RiskFlag {
        severity: severity.to_owned(),
        code: code.to_owned(),
        message,
        recommendation: recommendation.to_owned(),
    }
}

fn add_when(flags: &mut Vec<RiskFlag>, condition: bool, found: RiskFlag)
    ensures
        views(final(flags)@) == views(old(flags)@) + when(condition, found@),
{
    if condition {
        flags.push(found);
    }
}

fn add_low_thresholds(flags: &mut Vec<RiskFlag>, rules: &[MatchStrategySummary])
    ensures
        views(final(flags)@) == views(old(flags)@) + low_threshold_flags(views(rules@)),
{
    let mut i: usize = 0;
    assert(views(flags@) =~= views(old(flags)@) + low_threshold_flags(views(rules@).take(0))) by {
        reveal_with_fuel(Seq::filter, 1);
    }
    while i < rules.len()
        invariant
            i <= rules.len(),
            views(flags@) == views(old(flags)@) + low_threshold_flags(
                views(rules@).take(i as int),
            ),
        decreases rules.len() - i,
    {
        let ghost before = views(rules@).take(i as int);
        let ghost prior = views(flags@);
        proof {
            lemma_take_next(views(rules@), i as int);
            before.lemma_filter_push(rules@[i as int]@, low_threshold_rules());
        }
        let rule = &rules[i];
        match &rule.threshold {
            Some(threshold) => {
                if threshold.below_eight_tenths() && !same_text(rule.match_type.as_str(), "exact") {
                    let mut message = "Rule '".to_owned();
                    message.append(rule.rule_name.as_str());
                    message.append("' has threshold ");
                    message.append(threshold.two_places.as_str());
                    message.append(" — risk of over-merging");
                    flags.push(
                        flag(
                            "high",
                            "LOW_THRESHOLD",
                            message,
                            "Consider raising threshold to 0.8+ or adding verification rules",
                        ),
                    );
                    assert(views(flags@) =~= prior.push(low_threshold_flag(rule@)));
                }
            },
            None => {},
        }
        i += 1;
    }
    proof {
        assert(views(rules@).take(rules.len() as int) =~= views(rules@));
    }
}

fn add_high_weights(flags: &mut Vec<RiskFlag>, rules: &[MatchStrategySummary])
    ensures
        views(final(flags)@) == views(old(flags)@) + high_weight_flags(views(rules@)),
{
    let mut i: usize = 0;
    assert(views(flags@) =~= views(old(flags)@) + high_weight_flags(views(rules@).take(0))) by {
        reveal_with_fuel(Seq::filter, 1);
    }
    while i < rules.len()
        invariant
            i <= rules.len(),
            views(flags@) == views(old(flags)@) + high_weight_flags(views(rules@).take(i as int)),
        decreases rules.len() - i,
    {
        let ghost before = views(rules@).take(i as int);
        let ghost prior = views(flags@);
        proof {
            lemma_take_next(views(rules@), i as int);
            before.lemma_filter_push(rules@[i as int]@, high_weight_rules());
        }
        let rule = &rules[i];
        if !same_text(rule.match_type.as_str(), "exact") && rule.weight.above_nine_tenths() {
            let mut message = "Fuzzy rule '".to_owned();
            message.append(rule.rule_name.as_str());
            message.append("' has weight ");
            message.append(rule.weight.two_places.as_str());
            message.append(" — high trust in approximate matching");
            flags.push(
                flag(
                    "medium",
                    "HIGH_WEIGHT_FUZZY",
                    message,
                    "Verify fuzzy algorithm accuracy or reduce weight",
                ),
            );
            assert(views(flags@) =~= prior.push(high_weight_flag(rule@)));
        }
        i += 1;
    }
    proof {
        assert(views(rules@).take(rules.len() as int) =~= views(rules@));
    }
}

fn any_phone_rule(rules: &[MatchStrategySummary]) -> (r: bool)
    ensures
        r == some_phone_rule(views(rules@)),
{
    let mut i: usize = 0;
    while i < rules.len()
        invariant
            i <= rules.len(),
            forall|j: int| 0 <= j < i ==> !occurs_in("phone"@, (#[trigger] views(rules@)[j]).field),
        decreases rules.len() - i,
    {
        if contains_text(rules[i].field.as_str(), "phone") {
            assert(occurs_in("phone"@, views(rules@)[i as int].field));
            return true;
        }
        i += 1;
    }
    false
}

fn any_phone_key(blocking: &BlockingAnalysis) -> (r: bool)
    ensures
        r == some_phone_key(blocking@.keys),
{
    let mut i: usize = 0;
    while i < blocking.keys.len()
        invariant
            i <= blocking.keys.len(),
            forall|j: int| 0 <= j < i ==> !occurs_in("phone"@, (#[trigger] blocking@.keys[j]).name),
        decreases blocking.keys.len() - i,
    {
        if contains_text(blocking.keys[i].name.as_str(), "phone") {
            assert(occurs_in("phone"@, blocking@.keys[i as int].name));
            return true;
        }
        i += 1;
    }
    false
}

/// Runs the nine checks in order and returns their flags: `NO_BLOCKING`,
/// `SINGLE_SIGNAL`, one `LOW_THRESHOLD` for each offending rule, one
/// `HIGH_WEIGHT_FUZZY` for each offending rule, `NO_SURVIVORSHIP`,
/// `PHONE_WITHOUT_BLOCKING`, `NO_REVIEW_THRESHOLD`, `SINGLE_SOURCE`,
/// `MISSING_TEMPORAL`. Of the survivorship rules and the sources only the
/// number is read.
pub fn analyse_risks(
    spec: &serde_json::Value,
    match_strategies: &[MatchStrategySummary],
    blocking: &BlockingAnalysis,
    survivorship: &[SurvivorshipSummary],
    sources: &[PlanSource],
) -> (r: Vec<RiskFlag>)
    ensures
        views(r@) == risks_of(
            node_of(*spec),
            views(match_strategies@),
            blocking@,
            survivorship@.len(),
            sources@.len(),
        ),
{
    let mut flags: Vec<RiskFlag> = Vec::new();
    add_when(
        &mut flags,
        blocking.keys.len() == 0 && same_text(blocking.strategy.as_str(), "none"),
        flag(
            "critical",
            "NO_BLOCKING",
            "No blocking keys defined — all pairs will be compared (O(n\u{00B2}))".to_owned(),
            "Add blocking keys to reduce comparison space",
        ),
    );
    add_when(
        &mut flags,
        match_strategies.len() == 1,
        flag(
            "high",
            "SINGLE_SIGNAL",
            "Only one match rule — identity resolution depends on a single signal".to_owned(),
            "Add additional match rules for more robust identity resolution",
        ),
    );
    add_low_thresholds(&mut flags, match_strategies);
    add_high_weights(&mut flags, match_strategies);
    add_when(
        &mut flags,
        survivorship.len() == 0,
        flag(
            "medium",
            "NO_SURVIVORSHIP",
            "No survivorship rules defined — field selection will be arbitrary".to_owned(),
            "Define survivorship rules to control golden record field selection",
        ),
    );
    let phone_rule = any_phone_rule(match_strategies);
    let phone_key = any_phone_key(blocking);
    add_when(
        &mut flags,
        phone_rule && !phone_key,
        flag(
            "high",
            "PHONE_WITHOUT_BLOCKING",
            "Phone match rule without phone-based blocking key — phone reuse risk".to_owned(),
            "Add a phone-based blocking key (e.g., area code)",
        ),
    );
    let review = member_of(member_of(member(spec, "decision"), "thresholds"), "review");
    add_when(
        &mut flags,
        review.is_none(),
        flag(
            "medium",
            "NO_REVIEW_THRESHOLD",
            "No review threshold — all decisions are merge-or-reject with no review band".to_owned(),
            "Add a review threshold for ambiguous matches",
        ),
    );
    add_when(
        &mut flags,
        sources.len() == 1,
        flag(
            "low",
            "SINGLE_SOURCE",
            "Only one source — no cross-system identity resolution".to_owned(),
            "Add additional sources for cross-system matching",
        ),
    );
    let temporal = member(spec, "temporal");
    add_when(
        &mut flags,
        temporal.is_none(),
        flag(
            "low",
            "MISSING_TEMPORAL",
            "No temporal configuration — identity resolution is not time-aware".to_owned(),
            "Add temporal config if entities have time-dependent attributes",
        ),
    );
    flags
}

} // verus!
