//! The parsed specification document and the permissive accessors over it.
//!
//! A document is a `serde_json::Value`. Verus cannot look inside one, so its
//! content is described by [`node_of`], which maps a value to a mathematical
//! tree. Every accessor below states what it returns in terms of that tree.

use crate::number::{Measure, MeasureView};
use vstd::prelude::*;

verus! {

/// `serde_json::Value`, opaque to the verifier.
#[verifier::external_type_specification]
#[verifier::external_body]
pub struct ExValue(serde_json::Value);

/// `serde_json::Map`, opaque to the verifier.
#[verifier::external_type_specification]
#[verifier::external_body]
#[verifier::reject_recursive_types(K)]
#[verifier::reject_recursive_types(V)]
pub struct ExRecord<K, V>(serde_json::Map<K, V>);

/// A number of the document, as the value representation stores it: an
/// unsigned integer, a negative integer, or the bit pattern of a finite
/// binary64.
pub enum Numeric {
    PosInt(u64),
    NegInt(i64),
    Float(u64),
}

/// The mathematical content of a document value.
pub enum Node {
    Null,
    Bool(bool),
    Number(Numeric),
    Text(Seq<char>),
    List(Seq<Node>),
    Record(Map<Seq<char>, Node>),
}

/// The tree that a `serde_json::Value` holds.
pub uninterp spec fn node_of(v: serde_json::Value) -> Node;

/// The entries that a `serde_json::Map` holds, each value as its tree.
pub uninterp spec fn entries_of(m: serde_json::Map<String, serde_json::Value>) -> Map<
    Seq<char>,
    Node,
>;

/// The binary64 bit pattern that `serde_json::Value::as_f64` yields for a
/// number: the stored pattern of a float, the nearest binary64 of an integer.
pub uninterp spec fn binary64_of(n: Numeric) -> u64;

/// The text that `{}` formatting gives for the binary64 with these bits.
pub uninterp spec fn shortest_text(bits: u64) -> Seq<char>;

/// The text that `{:.2}` formatting gives for the binary64 with these bits.
pub uninterp spec fn two_place_text(bits: u64) -> Seq<char>;

/// The nodes of a sequence of values.
pub open spec fn nodes_of(items: Seq<serde_json::Value>) -> Seq<Node> {
    items.map_values(|v: serde_json::Value| node_of(v))
}

/// The member `key` of a record; `None` for a missing key and for a node
/// that is no record.
pub open spec fn child(n: Node, key: Seq<char>) -> Option<Node> {
    match n {
        Node::Record(m) => if m.contains_key(key) {
            Some(m[key])
        } else {
            None
        },
        _ => None,
    }
}

/// The member `key` of an optional node.
pub open spec fn descend(n: Option<Node>, key: Seq<char>) -> Option<Node> {
    match n {
        Some(inner) => child(inner, key),
        None => None,
    }
}

/// The text of an optional node, where it is a text node.
pub open spec fn text_of(n: Option<Node>) -> Option<Seq<char>> {
    match n {
        Some(Node::Text(s)) => Some(s),
        _ => None,
    }
}

/// The text of an optional node, or `fallback`.
pub open spec fn text_or(n: Option<Node>, fallback: Seq<char>) -> Seq<char> {
    match text_of(n) {
        Some(s) => s,
        None => fallback,
    }
}

/// The items of an optional node, where it is a list node.
pub open spec fn list_of(n: Option<Node>) -> Option<Seq<Node>> {
    match n {
        Some(Node::List(items)) => Some(items),
        _ => None,
    }
}

/// The items of an optional node; no items where it is no list node.
pub open spec fn items_of(n: Option<Node>) -> Seq<Node> {
    match list_of(n) {
        Some(items) => items,
        None => Seq::empty(),
    }
}

/// The number of entries of an optional node, where it is a record; else 0.
pub open spec fn entry_count(n: Option<Node>) -> nat {
    match n {
        Some(Node::Record(m)) => m.len(),
        _ => 0,
    }
}

/// The number of an optional node, where it is a number node.
pub open spec fn number_of(n: Option<Node>) -> Option<Numeric> {
    match n {
        Some(Node::Number(x)) => Some(x),
        _ => None,
    }
}

/// `serde_json::Value::as_str`: the text of a text node, `None` for any other.
pub assume_specification<'a>[ serde_json::Value::as_str ](v: &'a serde_json::Value) -> (r: Option<
    &'a str,
>)
    ensures
        match r {
            Some(s) => node_of(*v) == Node::Text(s@),
            None => !(node_of(*v) is Text),
        },
;

/// `serde_json::Value::as_array`: the items of a list node, in order, `None`
/// for any other node.
pub assume_specification<'a>[ serde_json::Value::as_array ](v: &'a serde_json::Value) -> (r: Option<
    &'a Vec<serde_json::Value>,
>)
    ensures
        match r {
            Some(items) => node_of(*v) == Node::List(nodes_of(items@)),
            None => !(node_of(*v) is List),
        },
;

/// `serde_json::Value::as_object`: the map of a record node, `None` for any
/// other node.
pub assume_specification<'a>[ serde_json::Value::as_object ](v: &'a serde_json::Value) -> (r:
    Option<&'a serde_json::Map<String, serde_json::Value>>)
    ensures
        match r {
            Some(m) => node_of(*v) == Node::Record(entries_of(*m)),
            None => !(node_of(*v) is Record),
        },
;

/// `serde_json::Value::get` with a text key: the member of a record under
/// that key; `None` where the key is missing or the value is no record.
#[verifier::external_body]
pub(crate) fn member<'a>(v: &'a serde_json::Value, key: &str) -> (r: Option<
    &'a serde_json::Value,
>)
    ensures
        match r {
            Some(c) => child(node_of(*v), key@) == Some(node_of(*c)),
            None => child(node_of(*v), key@) is None,
        },
{
    v.get(key)
}

/// `serde_json::Map::len`: the number of entries of the map.
#[verifier::external_body]
pub(crate) fn record_len(m: &serde_json::Map<String, serde_json::Value>) -> (r: usize)
    ensures
        r == entries_of(*m).len(),
{
    m.len()
}

/// The measure that reading a number of the document gives.
pub open spec fn measure_of(n: Numeric) -> MeasureView {
    MeasureView {
        bits: binary64_of(n),
        shortest: shortest_text(binary64_of(n)),
        two_places: two_place_text(binary64_of(n)),
    }
}

/// The measure of an optional node, where it is a number.
pub open spec fn measure_at(n: Option<Node>) -> Option<MeasureView> {
    match number_of(n) {
        Some(x) => Some(measure_of(x)),
        None => None,
    }
}

/// `serde_json::Value::as_f64`: the binary64 of a number node, handed out as
/// its bit pattern; `None` for a node that is no number.
#[verifier::external_body]
pub(crate) fn number_bits(v: &serde_json::Value) -> (r: Option<u64>)
    ensures
        match r {
            Some(bits) => match node_of(*v) {
                Node::Number(n) => bits == binary64_of(n),
                _ => false,
            },
            None => !(node_of(*v) is Number),
        },
{
    v.as_f64().map(|x| x.to_bits())
}

/// The `{}` formatting of the binary64 that `serde_json::Value::as_f64`
/// yields for a number node; `None` for a node that is no number.
#[verifier::external_body]
pub(crate) fn number_shortest(v: &serde_json::Value) -> (r: Option<String>)
    ensures
        match r {
            Some(shown) => match node_of(*v) {
                Node::Number(n) => shown@ == shortest_text(binary64_of(n)),
                _ => false,
            },
            None => !(node_of(*v) is Number),
        },
{
    v.as_f64().map(|x| format!("{}", x))
}

/// The `{:.2}` formatting of the binary64 that `serde_json::Value::as_f64`
/// yields for a number node; `None` for a node that is no number.
#[verifier::external_body]
pub(crate) fn number_two_places(v: &serde_json::Value) -> (r: Option<String>)
    ensures
        match r {
            Some(shown) => match node_of(*v) {
                Node::Number(n) => shown@ == two_place_text(binary64_of(n)),
                _ => false,
            },
            None => !(node_of(*v) is Number),
        },
{
    v.as_f64().map(|x| format!("{:.2}", x))
}

/// Reads a number: its bit pattern and its two renderings; `None` for a
/// value that is no number.
pub fn as_measure(v: &serde_json::Value) -> (r: Option<Measure>)
    ensures
        match r {
            Some(m) => measure_at(Some(node_of(*v))) == Some(m@),
            None => measure_at(Some(node_of(*v))) is None,
        },
{
    match (number_bits(v), number_shortest(v), number_two_places(v)) {
        (Some(bits), Some(shortest), Some(two_places)) => Some(
            Measure { bits, shortest, two_places },
        ),
        _ => None,
    }
}

/// Looks `key` up below an optional value.
pub fn member_of<'a>(v: Option<&'a serde_json::Value>, key: &str) -> (r: Option<
    &'a serde_json::Value,
>)
    ensures
        option_node(r) == descend(option_node(v), key@),
{
    match v {
        Some(inner) => member(inner, key),
        None => None,
    }
}

/// The node of an optional value.
pub open spec fn option_node(v: Option<&serde_json::Value>) -> Option<Node> {
    match v {
        Some(inner) => Some(node_of(*inner)),
        None => None,
    }
}

/// The text under an optional value, where it is text.
pub fn get_text<'a>(v: Option<&'a serde_json::Value>) -> (r: Option<&'a str>)
    ensures
        match r {
            Some(s) => text_of(option_node(v)) == Some(s@),
            None => text_of(option_node(v)) is None,
        },
{
    match v {
        Some(inner) => inner.as_str(),
        None => None,
    }
}

/// The text under an optional value, or `fallback` where there is none.
pub fn get_text_or(v: Option<&serde_json::Value>, fallback: &str) -> (r: String)
    ensures
        r@ == text_or(option_node(v), fallback@),
{
    match get_text(v) {
        Some(s) => s.to_owned(),
        None => fallback.to_owned(),
    }
}

/// The number of entries under an optional value: 0 unless it is a record.
pub fn get_entry_count(v: Option<&serde_json::Value>) -> (r: usize)
    ensures
        r == entry_count(option_node(v)),
{
    match v {
        Some(inner) => match inner.as_object() {
            Some(m) => record_len(m),
            None => 0,
        },
        None => 0,
    }
}

/// The items under an optional value, where it is a list.
pub fn get_items<'a>(v: Option<&'a serde_json::Value>) -> (r: Option<&'a Vec<serde_json::Value>>)
    ensures
        match r {
            Some(items) => list_of(option_node(v)) == Some(nodes_of(items@)),
            None => list_of(option_node(v)) is None,
        },
{
    match v {
        Some(inner) => inner.as_array(),
        None => None,
    }
}

/// The measure under an optional value, where it is a number.
pub fn get_measure(v: Option<&serde_json::Value>) -> (r: Option<Measure>)
    ensures
        match r {
            Some(m) => measure_at(option_node(v)) == Some(m@),
            None => measure_at(option_node(v)) is None,
        },
{
    match v {
        Some(inner) => as_measure(inner),
        None => None,
    }
}

} // verus!
