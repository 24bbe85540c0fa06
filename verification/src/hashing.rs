//! The plan hash: the SHA-256 digest of the document's canonical JSON text,
//! in lower-case hexadecimal behind the tag `sha256:`. It is computed from
//! the parsed document alone.

use crate::document::{node_of, Node};
use crate::error::{json_error_text, yaml_error_text, Failure, PlanError};
use vstd::prelude::*;
use vstd::string::*;
use vstd::utf8::encode_utf8;

verus! {

/// The document that `serde_yaml::from_str` reads from a text as a
/// `serde_json::Value`; `None` where it rejects the text.
pub uninterp spec fn yaml_document(text: Seq<char>) -> Option<Node>;

/// The compact JSON text that `serde_json::to_string` writes for a
/// document, with the keys of every record in sorted order; `None` where it
/// fails.
pub uninterp spec fn canonical_json(doc: Node) -> Option<Seq<char>>;

/// The SHA-256 digest of the bytes, as 64 lower-case hexadecimal digits.
pub uninterp spec fn sha256_hex(bytes: Seq<u8>) -> Seq<char>;

/// The hash of a canonical text: the tag, then the digest of its UTF-8 bytes.
pub open spec fn tagged_digest(canonical: Seq<char>) -> Seq<char> {
    "sha256:"@ + sha256_hex(encode_utf8(canonical))
}

/// The plan hash of a document; `None` where it has no canonical text.
pub open spec fn plan_hash_of(doc: Node) -> Option<Seq<char>> {
    match canonical_json(doc) {
        Some(canonical) => Some(tagged_digest(canonical)),
        None => None,
    }
}

/// What hashing a specification text gives: the plan hash of the document it
/// parses to, or the failure.
pub open spec fn hash_outcome(text: Seq<char>) -> Result<Seq<char>, Failure> {
    match yaml_document(text) {
        None => Err(Failure::Parse),
        Some(doc) => match plan_hash_of(doc) {
            Some(h) => Ok(h),
            None => Err(Failure::Serialize),
        },
    }
}

/// `serde_yaml::from_str` into a `serde_json::Value`: the document that the
/// text denotes, or the parser's error. The outcome depends on the text alone.
#[verifier::external_body]
pub(crate) fn parse_yaml(text: &str) -> (r: Result<serde_json::Value, serde_yaml::Error>)
    ensures
        match r {
            Ok(v) => yaml_document(text@) == Some(node_of(v)),
            Err(_) => yaml_document(text@) is None,
        },
{
    serde_yaml::from_str::<serde_json::Value>(text)
}

/// `serde_json::to_string` on a document: its canonical text, or the
/// serializer's error. The outcome depends on the document's content alone.
#[verifier::external_body]
pub(crate) fn to_canonical_json(v: &serde_json::Value) -> (r: Result<String, serde_json::Error>)
    ensures
        match r {
            Ok(s) => canonical_json(node_of(*v)) == Some(s@),
            Err(_) => canonical_json(node_of(*v)) is None,
        },
{
    serde_json::to_string(v)
}

/// `sha2::Sha256::digest` of the bytes, written with `{:x}`: the digest in
/// lower-case hexadecimal.
#[verifier::external_body]
pub(crate) fn digest_hex(bytes: &[u8]) -> (r: String)
    ensures
        r@ == sha256_hex(bytes@),
{
    format!("{:x}", <sha2::Sha256 as sha2::Digest>::digest(bytes))
}

/// Puts the algorithm tag before a digest.
pub fn tag_digest(hex: &str) -> (r: String)
    ensures
        r@ == "sha256:"@ + hex@,
{
    let mut out = "sha256:".to_owned();
    out.append(hex);
    out
}

/// Hashes a canonical text.
pub fn hash_canonical(canonical: &str) -> (r: String)
    ensures
        r@ == tagged_digest(canonical@),
{
    let digest = digest_hex(canonical.as_bytes());
    tag_digest(digest.as_str())
}

/// Parses a specification text.
pub fn parse(yaml_str: &str) -> (r: Result<serde_json::Value, PlanError>)
    ensures
        match r {
            Ok(v) => yaml_document(yaml_str@) == Some(node_of(v)),
            Err(e) => yaml_document(yaml_str@) is None && e@ == Failure::Parse,
        },
{
    match parse_yaml(yaml_str) {
        Ok(v) => Ok(v),
        Err(e) => Err(PlanError::Parse(yaml_error_text(&e))),
    }
}

/// Computes the plan hash of a parsed document. It fails exactly where the
/// document has no canonical text.
pub fn compute_plan_hash(spec: &serde_json::Value) -> (r: Result<String, PlanError>)
    ensures
        match r {
            Ok(h) => plan_hash_of(node_of(*spec)) == Some(h@),
            Err(e) => plan_hash_of(node_of(*spec)) is None && e@ == Failure::Serialize,
        },
{
    match to_canonical_json(spec) {
        Ok(canonical) => Ok(hash_canonical(canonical.as_str())),
        Err(e) => Err(PlanError::Serialize(json_error_text(&e))),
    }
}

/// The view of the outcome of hashing.
pub open spec fn hash_result_view(r: Result<String, PlanError>) -> Result<Seq<char>, Failure> {
    match r {
        Ok(h) => Ok(h@),
        Err(e) => Err(e@),
    }
}

/// Hashes a specification text: the plan hash of the document it parses to.
/// Two texts that parse to the same document have the same hash.
pub fn hash(yaml_str: &str) -> (r: Result<String, PlanError>)
    ensures
        hash_result_view(r) == hash_outcome(yaml_str@),
{
    match parse(yaml_str) {
        Ok(spec) => compute_plan_hash(&spec),
        Err(e) => Err(e),
    }
}

} // verus!
