//! The library's error type.  Failures of the file system and of parsers are
//! carried as their messages.

use crate::text::concat;
use vstd::prelude::*;

verus! {

#[derive(Debug, Clone, PartialEq, Eq)]
pub enum LabError {
    IoWithPath { path: String, message: String },
    Io(String),
    Json(String),
    Yaml(String),
    InvalidTarget(String),
    InvalidDuration(String),
    Policy(String),
    MissingSurface(String),
    Command(String),
    Validation(String),
}

pub type LabResult<T> = Result<T, LabError>;

/// The human-readable form of an error.
pub open spec fn error_text(e: LabError) -> Seq<char> {
    match e {
        LabError::IoWithPath { path, message } => "io error at "@ + path@ + ": "@ + message@,
        LabError::Io(m) => m@,
        LabError::Json(m) => m@,
        LabError::Yaml(m) => m@,
        LabError::InvalidTarget(m) => "invalid target: "@ + m@,
        LabError::InvalidDuration(m) => "invalid duration: "@ + m@,
        LabError::Policy(m) => "policy refused operation: "@ + m@,
        LabError::MissingSurface(m) => "missing required surface: "@ + m@,
        LabError::Command(m) => "external command failed: "@ + m@,
        LabError::Validation(m) => "validation failed: "@ + m@,
    }
}

impl LabError {
    /// The human-readable form of the error.
    pub fn message(&self) -> (text: String)
        ensures
            text@ == error_text(*self),
    {
        match self {
            LabError::IoWithPath { path, message } => {
                let a = concat("io error at ", path.as_str());
                let b = concat(a.as_str(), ": ");
                concat(b.as_str(), message.as_str())
            },
            LabError::Io(m) => m.clone(),
            LabError::Json(m) => m.clone(),
            LabError::Yaml(m) => m.clone(),
            LabError::InvalidTarget(m) => concat("invalid target: ", m.as_str()),
            LabError::InvalidDuration(m) => concat("invalid duration: ", m.as_str()),
            LabError::Policy(m) => concat("policy refused operation: ", m.as_str()),
            LabError::MissingSurface(m) => concat("missing required surface: ", m.as_str()),
            LabError::Command(m) => concat("external command failed: ", m.as_str()),
            LabError::Validation(m) => concat("validation failed: ", m.as_str()),
        }
    }
}

} // verus!
