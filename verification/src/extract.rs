//! The summary extractors: each reads one part of the document and turns
//! every entry of it into a record, with defaults for what is missing.

use crate::document::{
    child, descend, entry_count, get_entry_count, get_items, get_measure, get_text, get_text_or,
    items_of, list_of, measure_at, member, member_of, node_of, nodes_of, text_of, text_or, Node,
};
use crate::model::{
    lemma_take_next, views, MatchStrategySummary, MatchStrategyView, PlanSource, PlanSourceView,
    SurvivorshipSummary, SurvivorshipView,
};
use crate::number::{zero_measure, Measure};
use crate::text::same_text;
use vstd::prelude::*;

verus! {

/// The source that an entry of `sources` describes.
pub open spec fn source_of(n: Node) -> PlanSourceView {
    PlanSourceView {
        name: text_or(child(n, "name"@), "unknown"@),
        system: text_or(child(n, "system"@), "unknown"@),
        field_count: entry_count(child(n, "attributes"@)),
    }
}

/// The sources that a document declares, in its order.
pub open spec fn sources_of(doc: Node) -> Seq<PlanSourceView> {
    items_of(child(doc, "sources"@)).map_values(|n: Node| source_of(n))
}

/// The stage in which a rule of the given type is evaluated: 3 for an exact
/// rule, 4 for any other.
pub open spec fn evaluation_order_of(match_type: Seq<char>) -> nat {
    if match_type == "exact"@ {
        3
    } else {
        4
    }
}

/// Whether a rule is scheduled as its type demands: exact rules before
/// approximate ones.
pub open spec fn scheduled(m: MatchStrategyView) -> bool {
    m.evaluation_order == evaluation_order_of(m.match_type)
}

/// The match rule that an entry of `rules` describes.
pub open spec fn strategy_of(n: Node) -> MatchStrategyView {
    MatchStrategyView {
        rule_name: text_or(child(n, "name"@), "unknown"@),
        match_type: text_or(child(n, "type"@), "unknown"@),
        field: text_or(child(n, "field"@), "unknown"@),
        algorithm: text_of(child(n, "algorithm"@)),
        threshold: measure_at(child(n, "threshold"@)),
        weight: match measure_at(child(n, "weight"@)) {
            Some(w) => w,
            None => zero_measure(),
        },
        evaluation_order: evaluation_order_of(text_or(child(n, "type"@), "unknown"@)),
    }
}

/// The match rules that a document declares, in its order.
pub open spec fn strategies_of(doc: Node) -> Seq<MatchStrategyView> {
    items_of(child(doc, "rules"@)).map_values(|n: Node| strategy_of(n))
}

/// Whether a node is a text node.
pub open spec fn is_text() -> spec_fn(Node) -> bool {
    |n: Node| n is Text
}

/// The texts among the nodes, in order; other nodes are passed over.
pub open spec fn texts_among(items: Seq<Node>) -> Seq<Seq<char>> {
    items.filter(is_text()).map_values(|n: Node| n->Text_0)
}

/// The survivorship rule that an entry of `survivorship.rules` describes.
pub open spec fn survivorship_of(n: Node) -> SurvivorshipView {
    SurvivorshipView {
        field: text_or(child(n, "field"@), "unknown"@),
        strategy: text_or(child(n, "strategy"@), "unknown"@),
        source_priority: match list_of(child(n, "source_priority"@)) {
            Some(items) => Some(texts_among(items)),
            None => None,
        },
    }
}

/// The survivorship rules that a document declares, in its order.
pub open spec fn survivorships_of(doc: Node) -> Seq<SurvivorshipView> {
    items_of(descend(child(doc, "survivorship"@), "rules"@)).map_values(
        |n: Node| survivorship_of(n),
    )
}

fn read_source(v: &serde_json::Value) -> (r: PlanSource)
    ensures
        r@ == source_of(node_of(*v)),
{
    PlanSource {
        name: get_text_or(member(v, "name"), "unknown"),
        system: get_text_or(member(v, "system"), "unknown"),
        field_count: get_entry_count(member(v, "attributes")),
    }
}

/// Reads the declared sources: one record for each entry of `sources`, in
/// order; none where the key is missing or holds no list.
pub fn extract_sources(spec: &serde_json::Value) -> (r: Vec<PlanSource>)
    ensures
        views(r@) == sources_of(node_of(*spec)),
{
    let mut out: Vec<PlanSource> = Vec::new();
    match get_items(member(spec, "sources")) {
        Some(items) => {
            let mut i: usize = 0;
            while i < items.len()
                invariant
                    i <= items.len(),
                    out.len() == i,
                    forall|j: int| 0 <= j < i ==> out@[j]@ == source_of(node_of(items@[j])),
                decreases items.len() - i,
            {
                out.push(read_source(&items[i]));
                i += 1;
            }
        },
        None => {},
    }
    out
}

fn read_strategy(v: &serde_json::Value) -> (r: MatchStrategySummary)
    ensures
        r@ == strategy_of(node_of(*v)),
{
    let match_type = get_text_or(member(v, "type"), "unknown");
    let algorithm = match get_text(member(v, "algorithm")) {
        Some(s) => Some(s.to_owned()),
        None => None,
    };
    let weight = match get_measure(member(v, "weight")) {
        Some(w) => w,
        None => Measure::zero(),
    };
    let evaluation_order: usize = if same_text(match_type.as_str(), "exact") {
        3
    } else {
        4
    };
    MatchStrategySummary {
        rule_name: get_text_or(member(v, "name"), "unknown"),
        match_type,
        field: get_text_or(member(v, "field"), "unknown"),
        algorithm,
        threshold: get_measure(member(v, "threshold")),
        weight,
        evaluation_order,
    }
}

/// Reads the match rules: one record for each entry of `rules`, in order.
/// Every record has `evaluation_order` 3 where its type is `exact`, else 4.
pub fn extract_match_strategies(spec: &serde_json::Value) -> (r: Vec<MatchStrategySummary>)
    ensures
        views(r@) == strategies_of(node_of(*spec)),
        forall|i: int| 0 <= i < r.len() ==> scheduled((#[trigger] r@[i])@),
{
    let mut out: Vec<MatchStrategySummary> = Vec::new();
    match get_items(member(spec, "rules")) {
        Some(items) => {
            let mut i: usize = 0;
            while i < items.len()
                invariant
                    i <= items.len(),
                    out.len() == i,
                    forall|j: int| 0 <= j < i ==> out@[j]@ == strategy_of(node_of(items@[j])),
                decreases items.len() - i,
            {
                out.push(read_strategy(&items[i]));
                i += 1;
            }
        },
        None => {},
    }
    out
}

fn read_texts(items: &Vec<serde_json::Value>) -> (r: Vec<String>)
    ensures
        r.deep_view() == texts_among(nodes_of(items@)),
{
    let mut out: Vec<String> = Vec::new();
    let mut i: usize = 0;
    while i < items.len()
        invariant
            i <= items.len(),
            out.deep_view() == texts_among(nodes_of(items@).take(i as int)),
        decreases items.len() - i,
    {
        let ghost before = nodes_of(items@).take(i as int);
        let ghost prior = out.deep_view();
        proof {
            lemma_take_next(nodes_of(items@), i as int);
            before.lemma_filter_push(node_of(items@[i as int]), is_text());
        }
        match items[i].as_str() {
            Some(s) => {
                out.push(s.to_owned());
                assert(out.deep_view() =~= prior.push(s@));
            },
            None => {},
        }
        i += 1;
    }
    proof {
        assert(nodes_of(items@).take(items.len() as int) =~= nodes_of(items@));
    }
    out
}

fn read_survivorship(v: &serde_json::Value) -> (r: SurvivorshipSummary)
    ensures
        r@ == survivorship_of(node_of(*v)),
{
    let source_priority = match get_items(member(v, "source_priority")) {
        Some(items) => Some(read_texts(items)),
        None => None,
    };
    SurvivorshipSummary {
        field: get_text_or(member(v, "field"), "unknown"),
        strategy: get_text_or(member(v, "strategy"), "unknown"),
        source_priority,
    }
}

/// Reads the survivorship rules: one record for each entry of
/// `survivorship.rules`, in order. A `source_priority` list keeps its text
/// entries, in order.
pub fn extract_survivorship(spec: &serde_json::Value) -> (r: Vec<SurvivorshipSummary>)
    ensures
        views(r@) == survivorships_of(node_of(*spec)),
{
    let mut out: Vec<SurvivorshipSummary> = Vec::new();
    match get_items(member_of(member(spec, "survivorship"), "rules")) {
        Some(items) => {
            let mut i: usize = 0;
            while i < items.len()
                invariant
                    i <= items.len(),
                    out.len() == i,
                    forall|j: int| 0 <= j < i ==> out@[j]@ == survivorship_of(node_of(items@[j])),
                decreases items.len() - i,
            {
                out.push(read_survivorship(&items[i]));
                i += 1;
            }
        },
        None => {},
    }
    out
}

} // verus!
