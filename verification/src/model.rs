//! The records that make up a plan, each with its mathematical view.

use crate::number::{Measure, MeasureView};
use vstd::prelude::*;

verus! {

/// The views of a sequence of records, in order.
pub open spec fn views<T: View>(items: Seq<T>) -> Seq<T::V> {
    items.map_values(|x: T| x@)
}

/// The first `i + 1` items of a sequence are its first `i` items and the next one.
pub proof fn lemma_take_next<A>(s: Seq<A>, i: int)
    requires
        0 <= i < s.len(),
    ensures
        s.take(i + 1) == s.take(i).push(s[i]),
{
    assert(s.take(i + 1) =~= s.take(i).push(s[i]));
}

/// The characters of an optional text.
pub open spec fn option_text(t: Option<String>) -> Option<Seq<char>> {
    match t {
        Some(s) => Some(s@),
        None => None,
    }
}

/// The view of an optional measure.
pub open spec fn option_measure(m: Option<Measure>) -> Option<MeasureView> {
    match m {
        Some(x) => Some(x@),
        None => None,
    }
}

/// The texts of an optional list of texts.
pub open spec fn option_texts(t: Option<Vec<String>>) -> Option<Seq<Seq<char>>> {
    match t {
        Some(list) => Some(list.deep_view()),
        None => None,
    }
}

/// One declared data source.
#[derive(Debug)]
pub struct PlanSource {
    pub name: String,
    pub system: String,
    pub field_count: usize,
}

/// The mathematical content of a [`PlanSource`].
pub struct PlanSourceView {
    pub name: Seq<char>,
    pub system: Seq<char>,
    pub field_count: nat,
}

impl View for PlanSource {
    type V = PlanSourceView;

    open spec fn view(&self) -> PlanSourceView {
        PlanSourceView {
            name: self.name@,
            system: self.system@,
            field_count: self.field_count as nat,
        }
    }
}

/// One stage of the pipeline.
#[derive(Debug)]
pub struct ExecutionStage {
    pub stage: usize,
    pub name: String,
    pub description: String,
    pub inputs: Vec<String>,
    pub outputs: Vec<String>,
}

/// The mathematical content of an [`ExecutionStage`].
pub struct ExecutionStageView {
    pub stage: nat,
    pub name: Seq<char>,
    pub description: Seq<char>,
    pub inputs: Seq<Seq<char>>,
    pub outputs: Seq<Seq<char>>,
}

impl View for ExecutionStage {
    type V = ExecutionStageView;

    open spec fn view(&self) -> ExecutionStageView {
        ExecutionStageView {
            stage: self.stage as nat,
            name: self.name@,
            description: self.description@,
            inputs: self.inputs.deep_view(),
            outputs: self.outputs.deep_view(),
        }
    }
}

/// One match rule, with the stage in which it is evaluated.
#[derive(Debug)]
pub struct MatchStrategySummary {
    pub rule_name: String,
    pub match_type: String,
    pub field: String,
    pub algorithm: Option<String>,
    pub threshold: Option<Measure>,
    pub weight: Measure,
    pub evaluation_order: usize,
}

/// The mathematical content of a [`MatchStrategySummary`].
pub struct MatchStrategyView {
    pub rule_name: Seq<char>,
    pub match_type: Seq<char>,
    pub field: Seq<char>,
    pub algorithm: Option<Seq<char>>,
    pub threshold: Option<MeasureView>,
    pub weight: MeasureView,
    pub evaluation_order: nat,
}

impl View for MatchStrategySummary {
    type V = MatchStrategyView;

    open spec fn view(&self) -> MatchStrategyView {
        MatchStrategyView {
            rule_name: self.rule_name@,
            match_type: self.match_type@,
            field: self.field@,
            algorithm: option_text(self.algorithm),
            threshold: option_measure(self.threshold),
            weight: self.weight@,
            evaluation_order: self.evaluation_order as nat,
        }
    }
}

/// One survivorship rule.
#[derive(Debug)]
pub struct SurvivorshipSummary {
    pub field: String,
    pub strategy: String,
    pub source_priority: Option<Vec<String>>,
}

/// The mathematical content of a [`SurvivorshipSummary`].
pub struct SurvivorshipView {
    pub field: Seq<char>,
    pub strategy: Seq<char>,
    pub source_priority: Option<Seq<Seq<char>>>,
}

impl View for SurvivorshipSummary {
    type V = SurvivorshipView;

    open spec fn view(&self) -> SurvivorshipView {
        SurvivorshipView {
            field: self.field@,
            strategy: self.strategy@,
            source_priority: option_texts(self.source_priority),
        }
    }
}

/// One blocking key.
#[derive(Debug)]
pub struct BlockingKeySummary {
    pub name: String,
    pub transformation: String,
}

/// The mathematical content of a [`BlockingKeySummary`].
pub struct BlockingKeyView {
    pub name: Seq<char>,
    pub transformation: Seq<char>,
}

impl View for BlockingKeySummary {
    type V = BlockingKeyView;

    open spec fn view(&self) -> BlockingKeyView {
        BlockingKeyView { name: self.name@, transformation: self.transformation@ }
    }
}

/// The blocking configuration and its advisory rating.
#[derive(Debug)]
pub struct BlockingAnalysis {
    pub strategy: String,
    pub keys: Vec<BlockingKeySummary>,
    pub estimated_reduction: String,
    pub warnings: Vec<String>,
}

/// The mathematical content of a [`BlockingAnalysis`].
pub struct BlockingView {
    pub strategy: Seq<char>,
    pub keys: Seq<BlockingKeyView>,
    pub estimated_reduction: Seq<char>,
    pub warnings: Seq<Seq<char>>,
}

impl View for BlockingAnalysis {
    type V = BlockingView;

    open spec fn view(&self) -> BlockingView {
        BlockingView {
            strategy: self.strategy@,
            keys: views(self.keys@),
            estimated_reduction: self.estimated_reduction@,
            warnings: self.warnings.deep_view(),
        }
    }
}

/// One finding of the risk analysis.
#[derive(Debug)]
pub struct RiskFlag {
    pub severity: String,
    pub code: String,
    pub message: String,
    pub recommendation: String,
}

/// The mathematical content of a [`RiskFlag`].
pub struct RiskFlagView {
    pub severity: Seq<char>,
    pub code: Seq<char>,
    pub message: Seq<char>,
    pub recommendation: Seq<char>,
}

impl View for RiskFlag {
    type V = RiskFlagView;

    open spec fn view(&self) -> RiskFlagView {
        RiskFlagView {
            severity: self.severity@,
            code: self.code@,
            message: self.message@,
            recommendation: self.recommendation@,
        }
    }
}

/// The compiled plan.
#[derive(Debug)]
pub struct PlanResult {
    pub entity: String,
    pub identity_version: String,
    pub plan_hash: String,
    pub sources: Vec<PlanSource>,
    pub execution_stages: Vec<ExecutionStage>,
    pub match_strategies: Vec<MatchStrategySummary>,
    pub survivorship_summary: Vec<SurvivorshipSummary>,
    pub blocking_analysis: BlockingAnalysis,
    pub risk_flags: Vec<RiskFlag>,
    pub summary: String,
}

/// The mathematical content of a [`PlanResult`].
pub struct PlanView {
    pub entity: Seq<char>,
    pub identity_version: Seq<char>,
    pub plan_hash: Seq<char>,
    pub sources: Seq<PlanSourceView>,
    pub execution_stages: Seq<ExecutionStageView>,
    pub match_strategies: Seq<MatchStrategyView>,
    pub survivorship_summary: Seq<SurvivorshipView>,
    pub blocking_analysis: BlockingView,
    pub risk_flags: Seq<RiskFlagView>,
    pub summary: Seq<char>,
}

impl View for PlanResult {
    type V = PlanView;

    open spec fn view(&self) -> PlanView {
        PlanView {
            entity: self.entity@,
            identity_version: self.identity_version@,
            plan_hash: self.plan_hash@,
            sources: views(self.sources@),
            execution_stages: views(self.execution_stages@),
            match_strategies: views(self.match_strategies@),
            survivorship_summary: views(self.survivorship_summary@),
            blocking_analysis: self.blocking_analysis@,
            risk_flags: views(self.risk_flags@),
            summary: self.summary@,
        }
    }
}

} // verus!
