//! Compiles an entity-resolution specification into an execution plan: an
//! eight-stage pipeline description, a risk report and a content hash.
//!
//! The entry point is [`generate_plan`]. Nothing here reads record data or
//! runs a pipeline: the plan is derived from the specification alone.

pub mod blocking;
pub mod document;
pub mod error;
pub mod extract;
pub mod hashing;
pub mod laws;
pub mod model;
pub mod number;
pub mod plan;
pub mod risks;
pub mod stages;
pub mod summary;
pub mod text;

pub use blocking::analyse_blocking;
pub use error::PlanError;
pub use extract::{extract_match_strategies, extract_sources, extract_survivorship};
pub use hashing::{compute_plan_hash, hash, parse};
pub use model::{
    BlockingAnalysis, BlockingKeySummary, ExecutionStage, MatchStrategySummary, PlanResult,
    PlanSource, RiskFlag, SurvivorshipSummary,
};
pub use number::Measure;
pub use plan::{generate_plan, plan_document};
pub use risks::analyse_risks;
pub use stages::build_execution_stages;
pub use summary::build_summary;
