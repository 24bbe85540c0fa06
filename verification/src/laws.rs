//! What holds of the compiler as a whole, proved from the contracts of its
//! parts.

use crate::blocking::{blocking_of, unblocked};
use crate::document::{child, descend, Node};
use crate::error::PlanError;
use crate::extract::{scheduled, sources_of, strategies_of, survivorships_of};
use crate::hashing::{hash_outcome, yaml_document};
use crate::model::{BlockingView, MatchStrategyView, PlanResult};
use crate::plan::{plan_of, plan_outcome, plan_result_view};
use crate::risks::{
    missing_temporal_flag, no_blocking_flag, no_review_flag, no_survivorship_flag, risks_of,
    single_source_flag,
};
use vstd::prelude::*;

verus! {

/// Compiling one text twice gives the same outcome: the same plan in every
/// field, the hash among them, or the same kind of failure.
pub proof fn lemma_compilation_is_deterministic(
    text: Seq<char>,
    first: Result<PlanResult, PlanError>,
    second: Result<PlanResult, PlanError>,
)
    requires
        plan_result_view(first) == plan_outcome(text),
        plan_result_view(second) == plan_outcome(text),
    ensures
        plan_result_view(first) == plan_result_view(second),
        first is Ok ==> second is Ok && first->Ok_0@.plan_hash == second->Ok_0@.plan_hash,
{
}

/// Two texts that parse to the same document have the same hash and the
/// same plan, however they differ in key order, white space or comments.
pub proof fn lemma_hash_ignores_formatting(a: Seq<char>, b: Seq<char>)
    requires
        yaml_document(a) == yaml_document(b),
    ensures
        hash_outcome(a) == hash_outcome(b),
        plan_outcome(a) == plan_outcome(b),
{
}

/// The hash in a plan is the hash of its text: it does not depend on the
/// summaries that were derived on the way.
pub proof fn lemma_plan_carries_the_hash(text: Seq<char>)
    ensures
        match plan_outcome(text) {
            Ok(plan) => hash_outcome(text) is Ok && hash_outcome(text)->Ok_0 == plan.plan_hash,
            Err(failure) => hash_outcome(text) is Err && hash_outcome(text)->Err_0 == failure,
        },
{
}

/// Every extracted match rule is evaluated in stage 3 where its type is
/// `exact`, and in stage 4 otherwise.
pub proof fn lemma_evaluation_order(doc: Node, i: int)
    requires
        0 <= i < strategies_of(doc).len(),
    ensures
        scheduled(strategies_of(doc)[i]),
        strategies_of(doc)[i].evaluation_order == 3 <==> strategies_of(doc)[i].match_type
            == "exact"@,
        strategies_of(doc)[i].evaluation_order == 3 || strategies_of(doc)[i].evaluation_order == 4,
{
}

/// A specification without rules, survivorship rules, blocking, decision
/// thresholds and temporal configuration is flagged for exactly that, in
/// this order: no blocking, no survivorship, no review threshold, a single
/// source where exactly one is declared, and no temporal configuration.
/// No flag speaks of a single signal.
pub proof fn lemma_flags_of_bare_specification(doc: Node, blocking: BlockingView, source_count: nat)
    requires
        unblocked(blocking.strategy, blocking.keys.len()),
        descend(child(doc, "decision"@), "thresholds"@) is None,
        child(doc, "temporal"@) is None,
    ensures
        risks_of(doc, Seq::<MatchStrategyView>::empty(), blocking, 0, source_count) == if source_count
            == 1 {
            seq![
                no_blocking_flag(),
                no_survivorship_flag(),
                no_review_flag(),
                single_source_flag(),
                missing_temporal_flag(),
            ]
        } else {
            seq![
                no_blocking_flag(),
                no_survivorship_flag(),
                no_review_flag(),
                missing_temporal_flag(),
            ]
        },
{
    reveal_with_fuel(Seq::filter, 1);
}

/// The plan of a document that declares no rules, no survivorship rules, no
/// blocking, no decision thresholds and no temporal configuration carries
/// exactly the flags of [`lemma_flags_of_bare_specification`].
pub proof fn lemma_flags_of_bare_document(doc: Node, plan_hash: Seq<char>)
    requires
        strategies_of(doc).len() == 0,
        survivorships_of(doc).len() == 0,
        unblocked(blocking_of(doc).strategy, blocking_of(doc).keys.len()),
        descend(child(doc, "decision"@), "thresholds"@) is None,
        child(doc, "temporal"@) is None,
    ensures
        plan_of(doc, plan_hash).risk_flags == if sources_of(doc).len() == 1 {
            seq![
                no_blocking_flag(),
                no_survivorship_flag(),
                no_review_flag(),
                single_source_flag(),
                missing_temporal_flag(),
            ]
        } else {
            seq![
                no_blocking_flag(),
                no_survivorship_flag(),
                no_review_flag(),
                missing_temporal_flag(),
            ]
        },
{
    assert(strategies_of(doc) =~= Seq::<MatchStrategyView>::empty());
    lemma_flags_of_bare_specification(doc, blocking_of(doc), sources_of(doc).len());
}

} // verus!
