//! Error taxonomy of the pipeline.
//!
//! No error class is fatal to the scheduler: every variant is logged by the
//! caller and the scan moves on to the next message, folder or tick.

use vstd::prelude::*;

verus! {

/// The pipeline's error classes.
///
/// - `Storage`: a relational or vector write failed.
/// - `Outlook`: the mail source was unreachable or rejected a fetch filter.
/// - `AI`: a network or protocol failure while calling the AI backend.
/// - `Validation`: a structurally invalid value was handed to the pipeline.
/// - `SchemaRepairFailed`: the model's output never validated, even after the
///   single repair pass.
/// - `Internal`: anything else.
#[derive(Debug, Clone, PartialEq, Eq)]
pub enum NoodleError {
    Storage(String),
    Outlook(String),
    AI(String),
    Validation(String),
    SchemaRepairFailed,
    Internal(String),
}

impl NoodleError {
    /// A short label for the error class, for logs.
    pub fn kind(&self) -> (r: &'static str)
        ensures
            r@ == self.spec_kind(),
    {
        match self {
            NoodleError::Storage(_) => "storage",
            NoodleError::Outlook(_) => "outlook",
            NoodleError::AI(_) => "ai",
            NoodleError::Validation(_) => "validation",
            NoodleError::SchemaRepairFailed => "schema_repair_failed",
            NoodleError::Internal(_) => "internal",
        }
    }

    pub open spec fn spec_kind(&self) -> Seq<char> {
        match self {
            NoodleError::Storage(_) => "storage"@,
            NoodleError::Outlook(_) => "outlook"@,
            NoodleError::AI(_) => "ai"@,
            NoodleError::Validation(_) => "validation"@,
            NoodleError::SchemaRepairFailed => "schema_repair_failed"@,
            NoodleError::Internal(_) => "internal"@,
        }
    }
}

} // verus!
