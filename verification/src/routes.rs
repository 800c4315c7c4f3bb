//! The logic of the fault endpoints: the filter a listing hands to the fault
//! provider, how a provider's fault entry becomes the API's `Fault`, and which
//! error a request is answered with when the component or its provider is
//! missing.

use vstd::prelude::*;
use vstd::hash_map::StringHashMap;

use crate::faults::{FaultError, FaultFilter, FaultInfo};
use crate::models::{Fault, FaultQueryParams, FaultResponse, FaultStatus, FaultStatusKeys};

verus! {

/// The DFM status key that a query status key stands for.
pub open spec fn status_key_name(key: FaultStatusKeys) -> Seq<char> {
    match key {
        FaultStatusKeys::ConfirmedDtc => "confirmedDTC"@,
        FaultStatusKeys::Mask => "mask"@,
        FaultStatusKeys::PendingDtc => "pendingDTC"@,
        FaultStatusKeys::TestFailed => "testFailed"@,
        FaultStatusKeys::TestFailedSinceLastClear => "testFailedSinceLastClear"@,
        FaultStatusKeys::TestFailedThisOperationCycle => "testFailedThisOperationCycle"@,
        FaultStatusKeys::TestNotCompletedSinceLastClear => "testNotCompletedSinceLastClear"@,
        FaultStatusKeys::TestNotCompletedThisOperationCycle => "testNotCompletedThisOperationCycle"@,
        FaultStatusKeys::WarningIndicatorRequested => "warningIndicatorRequested"@,
    }
}

/// Maps a query status key to the key the DFM uses in its status map.
pub fn status_key_to_str(key: &FaultStatusKeys) -> (name: &'static str)
    ensures
        name@ == status_key_name(*key),
{
    match key {
        FaultStatusKeys::ConfirmedDtc => "confirmedDTC",
        FaultStatusKeys::Mask => "mask",
        FaultStatusKeys::PendingDtc => "pendingDTC",
        FaultStatusKeys::TestFailed => "testFailed",
        FaultStatusKeys::TestFailedSinceLastClear => "testFailedSinceLastClear",
        FaultStatusKeys::TestFailedThisOperationCycle => "testFailedThisOperationCycle",
        FaultStatusKeys::TestNotCompletedSinceLastClear => "testNotCompletedSinceLastClear",
        FaultStatusKeys::TestNotCompletedThisOperationCycle => {
            "testNotCompletedThisOperationCycle"
        },
        FaultStatusKeys::WarningIndicatorRequested => "warningIndicatorRequested",
    }
}

/// A DTC flag read from a status map: absent when the key is absent, and set
/// exactly when the value is the string `"1"`.
pub open spec fn status_flag(m: Map<Seq<char>, String>, key: Seq<char>) -> Option<bool> {
    if m.contains_key(key) {
        Some(m[key]@ == "1"@)
    } else {
        None
    }
}

/// The API's status flags for a DFM status map. The mask is never reported.
pub open spec fn fault_status_of(m: Map<Seq<char>, String>) -> FaultStatus {
    FaultStatus {
        test_failed: status_flag(m, "testFailed"@),
        test_failed_this_operation_cycle: status_flag(m, "testFailedThisOperationCycle"@),
        pending_dtc: status_flag(m, "pendingDTC"@),
        confirmed_dtc: status_flag(m, "confirmedDTC"@),
        test_not_completed_since_last_clear: status_flag(m, "testNotCompletedSinceLastClear"@),
        test_failed_since_last_clear: status_flag(m, "testFailedSinceLastClear"@),
        test_not_completed_this_operation_cycle: status_flag(
            m,
            "testNotCompletedThisOperationCycle"@,
        ),
        warning_indicator_requested: status_flag(m, "warningIndicatorRequested"@),
        mask: None,
    }
}

/// The API's `Fault` for a provider's fault entry.
pub open spec fn fault_model(f: FaultInfo) -> Fault {
    Fault {
        code: f.code,
        scope: f.scope,
        display_code: f.display_code,
        fault_name: f.fault_name,
        severity: f.severity,
        status: match f.status {
            Some(m) => Some(fault_status_of(m@)),
            None => None,
        },
    }
}

/// Whether a DFM status value marks the flag as set.
fn is_set(value: &String) -> (set: bool)
    ensures
        set == (value@ == "1"@),
{
    let one = "1".to_owned();
    *value == one
}

/// Reads one DTC flag out of a status map.
fn read_flag(status: &StringHashMap<String>, key: &str) -> (flag: Option<bool>)
    ensures
        flag == status_flag(status@, key@),
{
    match status.get(key) {
        Some(value) => Some(is_set(value)),
        None => None,
    }
}

/// Converts a provider's fault entry into the API's `Fault`.
pub fn fault_info_to_model(f: FaultInfo) -> (fault: Fault)
    ensures
        fault == fault_model(f),
{
    let status = match &f.status {
        Some(s) => Some(
            FaultStatus {
                test_failed: read_flag(s, "testFailed"),
                test_failed_this_operation_cycle: read_flag(s, "testFailedThisOperationCycle"),
                pending_dtc: read_flag(s, "pendingDTC"),
                confirmed_dtc: read_flag(s, "confirmedDTC"),
                test_not_completed_since_last_clear: read_flag(
                    s,
                    "testNotCompletedSinceLastClear",
                ),
                test_failed_since_last_clear: read_flag(s, "testFailedSinceLastClear"),
                test_not_completed_this_operation_cycle: read_flag(
                    s,
                    "testNotCompletedThisOperationCycle",
                ),
                warning_indicator_requested: read_flag(s, "warningIndicatorRequested"),
                mask: None,
            },
        ),
        None => None,
    };
    Fault {
        code: f.code,
        display_code: f.display_code,
        scope: f.scope,
        fault_name: f.fault_name,
        severity: f.severity,
        status,
    }
}


/// The filter a fault listing hands to the fault provider for its query.
pub open spec fn fault_filter_matches(filter: FaultFilter, query: FaultQueryParams) -> bool {
    &&& filter.severity == query.severity
    &&& filter.scope == query.scope
    &&& match query.status {
        Some(w) => filter.status matches Some(s) && s@ == status_key_name(w.key),
        None => filter.status is None,
    }
}

/// Builds the provider filter for `GET /components/{component_id}/faults`:
/// the status key is translated to the DFM's key; severity and scope pass
/// through unchanged.
pub fn fault_filter(query: FaultQueryParams) -> (filter: FaultFilter)
    ensures
        fault_filter_matches(filter, query),
{
    let status = match &query.status {
        Some(w) => Some(status_key_to_str(&w.key).to_owned()),
        None => None,
    };
    FaultFilter { status, severity: query.severity, scope: query.scope }
}

/// Converts a provider's fault listing into the API's items, keeping order.
pub fn faults_to_items(faults: Vec<FaultInfo>) -> (items: Vec<Fault>)
    ensures
        items@ == faults@.map_values(|f: FaultInfo| fault_model(f)),
{
    let ghost input = faults@;
    let mut items: Vec<Fault> = Vec::new();
    for f in it: faults.into_iter()
        invariant
            it.seq() == input,
            items@ == input.take(it.index() as int).map_values(|f: FaultInfo| fault_model(f)),
    {
        let ghost i = it.index();
        items.push(fault_info_to_model(f));
        assert(input.take(i + 1) == input.take(i as int).push(input[i as int]));
    }
    assert(input.take(input.len() as int) == input);
    items
}

/// The answer to `GET /components/{component_id}/faults/{fault_code}`: the
/// fault, without a schema.
pub fn fault_response(info: FaultInfo) -> (response: FaultResponse)
    ensures
        response.items == fault_model(info),
        response.schema is None,
{
    FaultResponse { items: fault_info_to_model(info), schema: None }
}


/// Why a fault request fails before or at its fault provider.
#[derive(Debug)]
pub enum RouteError {
    /// No component has the requested id.
    EntityNotFound(String),
    /// The component has no provider of the named kind.
    ProviderNotAvailable(String),
    /// The fault provider refused the request.
    Fault(FaultError),
}

/// Picks the fault provider a request is served by: an unknown component is
/// answered with `EntityNotFound(component_id)`, a component without fault
/// provider with `ProviderNotAvailable("faults")`.
pub fn select_fault_provider<P>(component_id: String, component: Option<Option<P>>) -> (selected: Result<P, RouteError>)
    ensures
        match component {
            None => selected matches Err(RouteError::EntityNotFound(id)) && id == component_id,
            Some(None) => selected matches Err(RouteError::ProviderNotAvailable(kind)) && kind@ == "faults"@,
            Some(Some(p)) => selected matches Ok(q) && q == p,
        },
{
    match component {
        None => Err(RouteError::EntityNotFound(component_id)),
        Some(None) => Err(RouteError::ProviderNotAvailable("faults".to_owned())),
        Some(Some(p)) => Ok(p),
    }
}


/// The flag a fault's status reports for a status key (the mask is not a flag).
pub open spec fn reported_flag(status: FaultStatus, key: FaultStatusKeys) -> Option<bool> {
    match key {
        FaultStatusKeys::ConfirmedDtc => status.confirmed_dtc,
        FaultStatusKeys::Mask => None,
        FaultStatusKeys::PendingDtc => status.pending_dtc,
        FaultStatusKeys::TestFailed => status.test_failed,
        FaultStatusKeys::TestFailedSinceLastClear => status.test_failed_since_last_clear,
        FaultStatusKeys::TestFailedThisOperationCycle => status.test_failed_this_operation_cycle,
        FaultStatusKeys::TestNotCompletedSinceLastClear => status.test_not_completed_since_last_clear,
        FaultStatusKeys::TestNotCompletedThisOperationCycle => status.test_not_completed_this_operation_cycle,
        FaultStatusKeys::WarningIndicatorRequested => status.warning_indicator_requested,
    }
}

/// A listing filtered by a status key and the flag a fault reports for that
/// key read the same DFM status entry: for every key but the mask, the
/// reported flag of a fault with a status map is the map's entry under the
/// DFM key the filter carries, set exactly when that entry is `"1"`.
pub proof fn lemma_filter_key_is_reported_key(f: FaultInfo, key: FaultStatusKeys)
    requires
        f.status is Some,
        key != FaultStatusKeys::Mask,
    ensures
        fault_model(f).status matches Some(status)
            && reported_flag(status, key) == status_flag(f.status.unwrap()@, status_key_name(key)),
{
}

/// A fault's status never reports a mask, whatever its DFM status map holds.
pub proof fn lemma_mask_never_reported(f: FaultInfo)
    ensures
        fault_model(f).status matches Some(status) ==> status.mask is None,
        fault_model(f).status is Some <==> f.status is Some,
{
}

/// Distinct query status keys stand for distinct DFM keys, so a status filter
/// names exactly one key.
pub proof fn lemma_status_key_names_distinct(k1: FaultStatusKeys, k2: FaultStatusKeys)
    requires
        k1 != k2,
    ensures
        status_key_name(k1) != status_key_name(k2),
{
    reveal_strlit("confirmedDTC");
    reveal_strlit("mask");
    reveal_strlit("pendingDTC");
    reveal_strlit("testFailed");
    reveal_strlit("testFailedSinceLastClear");
    reveal_strlit("testFailedThisOperationCycle");
    reveal_strlit("testNotCompletedSinceLastClear");
    reveal_strlit("testNotCompletedThisOperationCycle");
    reveal_strlit("warningIndicatorRequested");
    let a = status_key_name(k1);
    let b = status_key_name(k2);
    if a == b {
        assert(a.len() == b.len());
        assert(a[0] == b[0]);
        assert(a[4] == b[4]);
        assert(a[a.len() - 1] == b[b.len() - 1]);
        assert(a[11] == b[11]);
        assert(a[16] == b[16]);
        assert(a[20] == b[20]);
    }
}


/// A DTC flag as the DFM encodes it: absent with its key, and otherwise set
/// exactly when the value is the one-character text `1`.
pub open spec fn dfm_flag(m: Map<Seq<char>, String>, key: Seq<char>) -> Option<bool> {
    if m.contains_key(key) {
        Some(m[key]@ == seq!['1'])
    } else {
        None
    }
}

/// The API's fault keeps the provider entry's code, scope, display code, name
/// and severity unchanged, whatever its status map; it has a status exactly
/// when the entry has one, and then each flag is read from the DFM key of the
/// same name, the mask never.
pub proof fn lemma_fault_model_fields(f: FaultInfo)
    ensures
        fault_model(f).code == f.code,
        fault_model(f).scope == f.scope,
        fault_model(f).display_code == f.display_code,
        fault_model(f).fault_name == f.fault_name,
        fault_model(f).severity == f.severity,
        fault_model(f).status is Some <==> f.status is Some,
        f.status matches Some(m) ==> ({
            let s = fault_model(f).status.unwrap();
            &&& s.test_failed == dfm_flag(m@, "testFailed"@)
            &&& s.test_failed_this_operation_cycle == dfm_flag(m@, "testFailedThisOperationCycle"@)
            &&& s.pending_dtc == dfm_flag(m@, "pendingDTC"@)
            &&& s.confirmed_dtc == dfm_flag(m@, "confirmedDTC"@)
            &&& s.test_not_completed_since_last_clear == dfm_flag(m@, "testNotCompletedSinceLastClear"@)
            &&& s.test_failed_since_last_clear == dfm_flag(m@, "testFailedSinceLastClear"@)
            &&& s.test_not_completed_this_operation_cycle == dfm_flag(m@, "testNotCompletedThisOperationCycle"@)
            &&& s.warning_indicator_requested == dfm_flag(m@, "warningIndicatorRequested"@)
            &&& s.mask is None
        }),
{
    reveal_strlit("1");
    assert("1"@ =~= seq!['1']);
}

/// A listing filtered by a status key other than the mask asks the provider
/// for exactly the DFM key whose entry gives that key's reported flag: for
/// every status map, the flag read under the filter's key is the flag the API
/// reports for the query's key.
pub proof fn lemma_filter_selects_reported_flag(
    query: FaultQueryParams,
    filter: FaultFilter,
    m: Map<Seq<char>, String>,
)
    requires
        fault_filter_matches(filter, query),
        query.status matches Some(w) && w.key != FaultStatusKeys::Mask,
    ensures
        filter.status matches Some(s) && dfm_flag(m, s@) == reported_flag(
            fault_status_of(m),
            query.status.unwrap().key,
        ),
{
    reveal_strlit("1");
    assert("1"@ =~= seq!['1']);
}

/// The DFM key a listing filters by, for each query status key: the key's
/// name in camel case, with `DTC` in capitals.
pub proof fn lemma_filter_status_text(query: FaultQueryParams, filter: FaultFilter)
    requires
        fault_filter_matches(filter, query),
        query.status is Some,
    ensures
        filter.status matches Some(s) && s@ == (match query.status.unwrap().key {
            FaultStatusKeys::ConfirmedDtc => "confirmedDTC"@,
            FaultStatusKeys::Mask => "mask"@,
            FaultStatusKeys::PendingDtc => "pendingDTC"@,
            FaultStatusKeys::TestFailed => "testFailed"@,
            FaultStatusKeys::TestFailedSinceLastClear => "testFailedSinceLastClear"@,
            FaultStatusKeys::TestFailedThisOperationCycle => "testFailedThisOperationCycle"@,
            FaultStatusKeys::TestNotCompletedSinceLastClear => "testNotCompletedSinceLastClear"@,
            FaultStatusKeys::TestNotCompletedThisOperationCycle => "testNotCompletedThisOperationCycle"@,
            FaultStatusKeys::WarningIndicatorRequested => "warningIndicatorRequested"@,
        }),
        query.status is None ==> filter.status is None,
{
}

} // verus!
