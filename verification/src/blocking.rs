//! The blocking analysis: the configured strategy and keys, and an advisory
//! rating of how far they cut the comparison space down. The rating goes by
//! the number of keys alone.

use crate::document::{
    child, descend, get_items, get_text_or, items_of, member, member_of, node_of, text_or, Node,
};
use crate::model::{views, BlockingAnalysis, BlockingKeySummary, BlockingKeyView, BlockingView};
use crate::text::same_text;
use vstd::prelude::*;

verus! {

/// The first of two optional nodes that is present.
pub open spec fn first_present(a: Option<Node>, b: Option<Node>) -> Option<Node> {
    if a is Some {
        a
    } else {
        b
    }
}

/// The key that an entry of `blocking.keys` describes. The name is read
/// from `field`, or from `name` where there is no `field`; the
/// transformation from `transform`, or from `transformation`.
pub open spec fn key_of(n: Node) -> BlockingKeyView {
    BlockingKeyView {
        name: text_or(first_present(child(n, "field"@), child(n, "name"@)), "unknown"@),
        transformation: text_or(
            first_present(child(n, "transform"@), child(n, "transformation"@)),
            "identity"@,
        ),
    }
}

/// Whether no blocking is configured at all: no key, and the strategy `none`.
pub open spec fn unblocked(strategy: Seq<char>, key_count: nat) -> bool {
    key_count == 0 && strategy == "none"@
}

/// The rating for a strategy and a number of keys: `none` where no blocking
/// is configured; else `low` for one key, `medium` for up to three (and for
/// a named strategy without keys), `high` for four or more.
pub open spec fn reduction_of(strategy: Seq<char>, key_count: nat) -> Seq<char> {
    if unblocked(strategy, key_count) {
        "none"@
    } else if key_count == 1 {
        "low"@
    } else if key_count <= 3 {
        "medium"@
    } else {
        "high"@
    }
}

/// The warning that goes with the rating `none`.
pub open spec fn unblocked_warning() -> Seq<char> {
    "No blocking keys defined — O(n\u{00B2}) pairwise comparisons"@
}

/// The warnings for a strategy and a number of keys: one where no blocking
/// is configured, else none.
pub open spec fn warnings_of(strategy: Seq<char>, key_count: nat) -> Seq<Seq<char>> {
    if unblocked(strategy, key_count) {
        seq![unblocked_warning()]
    } else {
        Seq::empty()
    }
}

/// The blocking analysis of a document.
pub open spec fn blocking_of(doc: Node) -> BlockingView {
    let strategy = text_or(descend(child(doc, "blocking"@), "strategy"@), "none"@);
    let keys = items_of(descend(child(doc, "blocking"@), "keys"@)).map_values(
        |n: Node| key_of(n),
    );
    BlockingView {
        strategy,
        keys,
        estimated_reduction: reduction_of(strategy, keys.len()),
        warnings: warnings_of(strategy, keys.len()),
    }
}

/// Whether an analysis is rated as its strategy and keys demand.
pub open spec fn rated(b: BlockingView) -> bool {
    &&& b.estimated_reduction == reduction_of(b.strategy, b.keys.len())
    &&& b.warnings == warnings_of(b.strategy, b.keys.len())
}

/// The rating goes by the number of keys: `none` exactly where there is no
/// key and the strategy is `none`, and exactly then there is a warning; else
/// `low` for one key, `medium` for two or three, `high` for four or more.
pub proof fn lemma_rating_by_key_count(b: BlockingView)
    requires
        rated(b),
    ensures
        b.estimated_reduction == "none"@ <==> (b.keys.len() == 0 && b.strategy == "none"@),
        b.estimated_reduction == "none"@ <==> b.warnings.len() > 0,
        b.keys.len() == 1 ==> b.estimated_reduction == "low"@,
        2 <= b.keys.len() <= 3 ==> b.estimated_reduction == "medium"@,
        b.keys.len() >= 4 ==> b.estimated_reduction == "high"@,
{
    reveal_strlit("none");
    reveal_strlit("low");
    reveal_strlit("medium");
    reveal_strlit("high");
    assert("none"@[0] == 'n');
}

fn read_key(v: &serde_json::Value) -> (r: BlockingKeySummary)
    ensures
        r@ == key_of(node_of(*v)),
{
    let name_at = match member(v, "field") {
        Some(found) => Some(found),
        None => member(v, "name"),
    };
    let transformation_at = match member(v, "transform") {
        Some(found) => Some(found),
        None => member(v, "transformation"),
    };
    BlockingKeySummary {
        name: get_text_or(name_at, "unknown"),
        transformation: get_text_or(transformation_at, "identity"),
    }
}

/// Analyses the blocking configuration: the strategy (`none` where it is
/// missing), one key for each entry of `blocking.keys`, the rating and its
/// warning.
pub fn analyse_blocking(spec: &serde_json::Value) -> (r: BlockingAnalysis)
    ensures
        r@ == blocking_of(node_of(*spec)),
        rated(r@),
{
    let blocking = member(spec, "blocking");
    let strategy = get_text_or(member_of(blocking, "strategy"), "none");
    let mut keys: Vec<BlockingKeySummary> = Vec::new();
    match get_items(member_of(blocking, "keys")) {
        Some(items) => {
            let mut i: usize = 0;
            while i < items.len()
                invariant
                    i <= items.len(),
                    keys.len() == i,
                    forall|j: int| 0 <= j < i ==> keys@[j]@ == key_of(node_of(items@[j])),
                decreases items.len() - i,
            {
                keys.push(read_key(&items[i]));
                i += 1;
            }
            assert(views(keys@) =~= blocking_of(node_of(*spec)).keys);
        },
        None => {
            assert(views(keys@) =~= blocking_of(node_of(*spec)).keys);
        },
    }
    let mut warnings: Vec<String> = Vec::new();
    let estimated_reduction: String;
    if keys.len() == 0 && same_text(strategy.as_str(), "none") {
        warnings.push("No blocking keys defined — O(n\u{00B2}) pairwise comparisons".to_owned());
        estimated_reduction = "none".to_owned();
    } else if keys.len() == 1 {
        estimated_reduction = "low".to_owned();
    } else if keys.len() <= 3 {
        estimated_reduction = "medium".to_owned();
    } else {
        estimated_reduction = "high".to_owned();
    }
    assert(warnings.deep_view() =~= warnings_of(strategy@, keys@.len()));
    BlockingAnalysis { strategy, keys, estimated_reduction, warnings }
}

} // verus!
