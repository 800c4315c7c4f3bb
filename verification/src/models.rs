//! The SOVD fault data model exchanged over HTTP.
//!
//! These are the bare types that the contracts speak of. Their JSON forms
//! (serde and JSON-schema derives) belong to the server that embeds them.

use vstd::prelude::*;

verus! {

/// Query parameters of `GET /components/{component_id}/faults`.
#[derive(Debug)]
pub struct FaultQueryParams {
    /// Filters the available elements based on a key from status.
    pub status: Option<StatusWrapper>,
    /// Filter fault entries by their severity.
    pub severity: Option<u32>,
    /// Scope of the fault entries retrieval.
    pub scope: Option<String>,
    /// Whether a schema is requested alongside the data.
    pub include_schema: bool,
}

/// The `status[key]=...` query parameter.
#[derive(Debug)]
pub struct StatusWrapper {
    pub key: FaultStatusKeys,
}

/// The DTC status keys a fault listing can be filtered by.
#[derive(Debug, Clone, Copy, PartialEq, Eq)]
pub enum FaultStatusKeys {
    ConfirmedDtc,
    Mask,
    PendingDtc,
    TestFailed,
    TestFailedSinceLastClear,
    TestFailedThisOperationCycle,
    TestNotCompletedSinceLastClear,
    TestNotCompletedThisOperationCycle,
    WarningIndicatorRequested,
}

/// Query parameters of `DELETE /components/{component_id}/faults`.
pub struct FaultData {
    /// Filters the available elements based on a key from status.
    pub status: Option<StatusWrapper>,
    /// Filter fault entries by their severity.
    pub severity: Option<u32>,
    /// Restricts clearing to this scope.
    pub scope: Option<String>,
}

/// The answer to `GET /components/{component_id}/faults/{fault_code}`.
pub struct FaultResponse {
    pub items: Fault,
    pub schema: Option<schemars::Schema>,
}

/// One fault as the SOVD API presents it.
pub struct Fault {
    /// Fault code native representation of entity.
    pub code: String,
    /// The scope the fault belongs to.
    pub scope: Option<String>,
    /// Display representation of the fault code.
    pub display_code: Option<String>,
    /// Name / description of the fault code.
    pub fault_name: String,
    /// Severity defines the impact of the fault on the system.
    pub severity: Option<u32>,
    /// Detailed status information as key value pairs.
    pub status: Option<FaultStatus>,
}

/// The DTC status flags of a fault.
#[derive(Debug)]
pub struct FaultStatus {
    pub test_failed: Option<bool>,
    pub test_failed_this_operation_cycle: Option<bool>,
    pub pending_dtc: Option<bool>,
    pub confirmed_dtc: Option<bool>,
    pub test_not_completed_since_last_clear: Option<bool>,
    pub test_failed_since_last_clear: Option<bool>,
    pub test_not_completed_this_operation_cycle: Option<bool>,
    pub warning_indicator_requested: Option<bool>,
    pub mask: Option<String>,
}

} // verus!
