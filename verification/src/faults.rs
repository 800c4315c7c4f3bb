//! Fault provider types: what a component's Diagnostic Fault Manager reports.

use vstd::prelude::*;
use vstd::hash_map::StringHashMap;
use vstd::string::StringExecFns;

verus! {

/// Filter criteria for listing faults.
#[derive(Debug, Clone, Default)]
pub struct FaultFilter {
    /// Filter by a specific DTC status key (e.g. `"confirmedDTC"`).
    pub status: Option<String>,
    /// Filter by severity level (0 = Trace ... 5 = Fatal).
    pub severity: Option<u32>,
    /// Restrict results to a specific scope.
    pub scope: Option<String>,
}

/// A single fault entry returned by a fault provider.
pub struct FaultInfo {
    pub code: String,
    pub display_code: Option<String>,
    pub scope: Option<String>,
    pub fault_name: String,
    pub severity: Option<u32>,
    /// DTC status flags encoded as `"0"` / `"1"` strings.
    /// Keys match those produced by the DFM: `"testFailed"`, `"confirmedDTC"`, etc.
    pub status: Option<StringHashMap<String>>,
}

/// Errors that can occur when accessing faults.
#[derive(Debug, Clone)]
pub enum FaultError {
    NotFound(String),
    Internal(String),
}

/// A `Result` alias where the `Err` variant is [`FaultError`].
pub type FaultResult<T> = Result<T, FaultError>;

/// The human-readable text of a fault error.
pub open spec fn fault_error_text(e: FaultError) -> Seq<char> {
    match e {
        FaultError::NotFound(code) => "fault not found: "@ + code@,
        FaultError::Internal(msg) => "internal error: "@ + msg@,
    }
}

impl FaultError {
    /// The error's message: `fault not found: {code}` or `internal error: {msg}`.
    pub fn message(&self) -> (text: String)
        ensures
            text@ == fault_error_text(*self),
    {
        match self {
            FaultError::NotFound(code) => {
                let mut text = "fault not found: ".to_owned();
                text.append(code.as_str());
                text
            },
            FaultError::Internal(msg) => {
                let mut text = "internal error: ".to_owned();
                text.append(msg.as_str());
                text
            },
        }
    }
}

} // verus!
