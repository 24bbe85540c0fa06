//! The ways in which compiling a plan can fail.

use vstd::prelude::*;
use vstd::string::*;

verus! {

/// `serde_yaml::Error`, opaque to the verifier.
#[verifier::external_type_specification]
#[verifier::external_body]
pub struct ExYamlError(serde_yaml::Error);

/// `serde_json::Error`, opaque to the verifier.
#[verifier::external_type_specification]
#[verifier::external_body]
pub struct ExJsonError(serde_json::Error);

/// Why no plan was compiled. Each variant carries the message of the
/// component that failed.
#[derive(Debug)]
pub enum PlanError {
    /// The text is not a well-formed document.
    Parse(String),
    /// The parsed document could not be written in canonical form.
    Serialize(String),
}

/// An error without its message.
pub enum Failure {
    Parse,
    Serialize,
}

impl View for PlanError {
    type V = Failure;

    open spec fn view(&self) -> Failure {
        match self {
            PlanError::Parse(_) => Failure::Parse,
            PlanError::Serialize(_) => Failure::Serialize,
        }
    }
}

/// The message of a `serde_yaml::Error`, as its `Display` writes it.
#[verifier::external_body]
pub(crate) fn yaml_error_text(e: &serde_yaml::Error) -> (r: String) {
    e.to_string()
}

/// The message of a `serde_json::Error`, as its `Display` writes it.
#[verifier::external_body]
pub(crate) fn json_error_text(e: &serde_json::Error) -> (r: String) {
    e.to_string()
}

impl PlanError {
    /// The error as one line: what failed, then the component's message.
    pub fn describe(&self) -> (r: String)
        ensures
            r@ == match self {
                PlanError::Parse(m) => "Failed to parse YAML for plan generation: "@ + m@,
                PlanError::Serialize(m) => "Failed to serialize the specification: "@ + m@,
            },
    {
        match self {
            PlanError::Parse(m) => {
                let mut line = "Failed to parse YAML for plan generation: ".to_owned();
                line.append(m.as_str());
                line
            },
            PlanError::Serialize(m) => {
                let mut line = "Failed to serialize the specification: ".to_owned();
                line.append(m.as_str());
                line
            },
        }
    }
}

} // verus!
