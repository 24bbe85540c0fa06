//! The plan compiler: from a specification text to the plan.

use crate::blocking::{analyse_blocking, blocking_of};
use crate::document::{child, descend, get_text_or, member, member_of, node_of, text_or, Node};
use crate::error::{Failure, PlanError};
use crate::extract::{
    extract_match_strategies, extract_sources, extract_survivorship, sources_of, strategies_of,
    survivorships_of,
};
use crate::hashing::{compute_plan_hash, parse, plan_hash_of, yaml_document};
use crate::model::{views, PlanResult, PlanSource, PlanView};
use crate::risks::{analyse_risks, risks_of};
use crate::stages::{build_execution_stages, stages_of};
use crate::summary::{build_summary, source_names, summary_of};
use vstd::prelude::*;

verus! {

/// The name of the entity that a document resolves, `unknown` where it
/// names none.
pub open spec fn entity_of(doc: Node) -> Seq<char> {
    text_or(descend(child(doc, "entity"@), "name"@), "unknown"@)
}

/// The identity version of a document, `unknown` where it states none.
pub open spec fn identity_version_of(doc: Node) -> Seq<char> {
    text_or(child(doc, "identity_version"@), "unknown"@)
}

/// The plan of a document whose hash is `plan_hash`.
pub open spec fn plan_of(doc: Node, plan_hash: Seq<char>) -> PlanView {
    let sources = sources_of(doc);
    let rules = strategies_of(doc);
    let survivorship = survivorships_of(doc);
    let blocking = blocking_of(doc);
    let flags = risks_of(doc, rules, blocking, survivorship.len(), sources.len());
    PlanView {
        entity: entity_of(doc),
        identity_version: identity_version_of(doc),
        plan_hash,
        sources,
        execution_stages: stages_of(source_names(sources), rules, blocking),
        match_strategies: rules,
        survivorship_summary: survivorship,
        blocking_analysis: blocking,
        risk_flags: flags,
        summary: summary_of(
            entity_of(doc),
            identity_version_of(doc),
            sources,
            rules,
            blocking,
            doc,
            survivorship.len(),
            flags,
            plan_hash,
        ),
    }
}

/// What planning a parsed document gives: its plan, or the failure to hash it.
pub open spec fn document_outcome(doc: Node) -> Result<PlanView, Failure> {
    match plan_hash_of(doc) {
        Some(h) => Ok(plan_of(doc, h)),
        None => Err(Failure::Serialize),
    }
}

/// What compiling a specification text gives: the plan of the document it
/// parses to, or the failure.
pub open spec fn plan_outcome(text: Seq<char>) -> Result<PlanView, Failure> {
    match yaml_document(text) {
        Some(doc) => document_outcome(doc),
        None => Err(Failure::Parse),
    }
}

/// The view of the outcome of a compilation.
pub open spec fn plan_result_view(r: Result<PlanResult, PlanError>) -> Result<PlanView, Failure> {
    match r {
        Ok(p) => Ok(p@),
        Err(e) => Err(e@),
    }
}

fn names_of(sources: &Vec<PlanSource>) -> (r: Vec<String>)
    ensures
        r.deep_view() == source_names(views(sources@)),
{
    let mut names: Vec<String> = Vec::new();
    let mut i: usize = 0;
    while i < sources.len()
        invariant
            i <= sources.len(),
            names.len() == i,
            forall|j: int| 0 <= j < i ==> names@[j]@ == sources@[j].name@,
        decreases sources.len() - i,
    {
        names.push(sources[i].name.clone());
        i += 1;
    }
    names
}

/// Plans a parsed document: extracts the summaries, builds the stages, runs
/// the risk checks, hashes the document and renders the summary. It fails
/// only where the document cannot be hashed.
pub fn plan_document(spec: &serde_json::Value) -> (r: Result<PlanResult, PlanError>)
    ensures
        plan_result_view(r) == document_outcome(node_of(*spec)),
{
    let entity = get_text_or(member_of(member(spec, "entity"), "name"), "unknown");
    let identity_version = get_text_or(member(spec, "identity_version"), "unknown");
    let sources = extract_sources(spec);
    let match_strategies = extract_match_strategies(spec);
    let survivorship_summary = extract_survivorship(spec);
    let blocking_analysis = analyse_blocking(spec);
    let names = names_of(&sources);
    let execution_stages = build_execution_stages(
        names.as_slice(),
        match_strategies.as_slice(),
        &blocking_analysis,
    );
    let risk_flags = analyse_risks(
        spec,
        match_strategies.as_slice(),
        &blocking_analysis,
        survivorship_summary.as_slice(),
        sources.as_slice(),
    );
    let plan_hash = match compute_plan_hash(spec) {
        Ok(h) => h,
        Err(e) => {
            return Err(e);
        },
    };
    let summary = build_summary(
        entity.as_str(),
        identity_version.as_str(),
        sources.as_slice(),
        match_strategies.as_slice(),
        &blocking_analysis,
        spec,
        survivorship_summary.as_slice(),
        risk_flags.as_slice(),
        plan_hash.as_str(),
    );
    Ok(
        PlanResult {
            entity,
            identity_version,
            plan_hash,
            sources,
            execution_stages,
            match_strategies,
            survivorship_summary,
            blocking_analysis,
            risk_flags,
            summary,
        },
    )
}

/// Compiles a specification text into its plan. It fails where the text is
/// not a well-formed document, and where the document cannot be hashed;
/// every other text gives a plan, with defaults for what it leaves out.
pub fn generate_plan(yaml_str: &str) -> (r: Result<PlanResult, PlanError>)
    ensures
        plan_result_view(r) == plan_outcome(yaml_str@),
{
    match parse(yaml_str) {
        Ok(spec) => plan_document(&spec),
        Err(e) => Err(e),
    }
}

} // verus!
