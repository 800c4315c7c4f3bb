use opensovd::{
    fault_filter, fault_info_to_model, fault_response, faults_to_items, select_fault_provider,
    status_key_to_str, FaultError, FaultInfo, FaultQueryParams, FaultStatusKeys, RouteError,
    StatusWrapper, StringHashMap,
};

fn status_map(pairs: &[(&str, &str)]) -> StringHashMap<String> {
    let mut m = StringHashMap::new();
    for (k, v) in pairs {
        m.insert(k.to_string(), v.to_string());
    }
    m
}

fn info(code: &str, status: Option<StringHashMap<String>>) -> FaultInfo {
    FaultInfo {
        code: code.to_string(),
        display_code: Some(format!("D-{code}")),
        scope: Some("hvac".to_string()),
        fault_name: format!("name of {code}"),
        severity: Some(4),
        status,
    }
}

#[test]
fn status_keys_map_to_dfm_keys() {
    let expected = [
        (FaultStatusKeys::ConfirmedDtc, "confirmedDTC"),
        (FaultStatusKeys::Mask, "mask"),
        (FaultStatusKeys::PendingDtc, "pendingDTC"),
        (FaultStatusKeys::TestFailed, "testFailed"),
        (FaultStatusKeys::TestFailedSinceLastClear, "testFailedSinceLastClear"),
        (FaultStatusKeys::TestFailedThisOperationCycle, "testFailedThisOperationCycle"),
        (FaultStatusKeys::TestNotCompletedSinceLastClear, "testNotCompletedSinceLastClear"),
        (FaultStatusKeys::TestNotCompletedThisOperationCycle, "testNotCompletedThisOperationCycle"),
        (FaultStatusKeys::WarningIndicatorRequested, "warningIndicatorRequested"),
    ];
    for (key, name) in expected {
        assert_eq!(status_key_to_str(&key), name);
    }
}

#[test]
fn status_key_names_are_distinct() {
    let keys = [
        FaultStatusKeys::ConfirmedDtc,
        FaultStatusKeys::Mask,
        FaultStatusKeys::PendingDtc,
        FaultStatusKeys::TestFailed,
        FaultStatusKeys::TestFailedSinceLastClear,
        FaultStatusKeys::TestFailedThisOperationCycle,
        FaultStatusKeys::TestNotCompletedSinceLastClear,
        FaultStatusKeys::TestNotCompletedThisOperationCycle,
        FaultStatusKeys::WarningIndicatorRequested,
    ];
    for a in keys {
        for b in keys {
            assert_eq!(a == b, status_key_to_str(&a) == status_key_to_str(&b));
        }
    }
}

#[test]
fn model_keeps_identity_fields() {
    let f = fault_info_to_model(info("ENGINE_OVERTEMP", None));
    assert_eq!(f.code, "ENGINE_OVERTEMP");
    assert_eq!(f.display_code.as_deref(), Some("D-ENGINE_OVERTEMP"));
    assert_eq!(f.scope.as_deref(), Some("hvac"));
    assert_eq!(f.fault_name, "name of ENGINE_OVERTEMP");
    assert_eq!(f.severity, Some(4));
    assert!(f.status.is_none());
}

#[test]
fn model_reads_dtc_flags() {
    let m = status_map(&[
        ("testFailed", "1"),
        ("testFailedThisOperationCycle", "1"),
        ("testFailedSinceLastClear", "1"),
        ("testNotCompletedThisOperationCycle", "0"),
        ("testNotCompletedSinceLastClear", "0"),
        ("pendingDTC", "0"),
        ("confirmedDTC", "1"),
        ("warningIndicatorRequested", "1"),
    ]);
    let s = fault_info_to_model(info("ENGINE_OVERTEMP", Some(m))).status.unwrap();
    assert_eq!(s.test_failed, Some(true));
    assert_eq!(s.test_failed_this_operation_cycle, Some(true));
    assert_eq!(s.test_failed_since_last_clear, Some(true));
    assert_eq!(s.test_not_completed_this_operation_cycle, Some(false));
    assert_eq!(s.test_not_completed_since_last_clear, Some(false));
    assert_eq!(s.pending_dtc, Some(false));
    assert_eq!(s.confirmed_dtc, Some(true));
    assert_eq!(s.warning_indicator_requested, Some(true));
    assert_eq!(s.mask, None);
}

#[test]
fn model_flag_is_set_only_by_exact_one() {
    let m = status_map(&[
        ("testFailed", "true"),
        ("confirmedDTC", "01"),
        ("pendingDTC", ""),
        ("mask", "0xff"),
    ]);
    let s = fault_info_to_model(info("X", Some(m))).status.unwrap();
    assert_eq!(s.test_failed, Some(false));
    assert_eq!(s.confirmed_dtc, Some(false));
    assert_eq!(s.pending_dtc, Some(false));
    assert_eq!(s.warning_indicator_requested, None);
    assert_eq!(s.test_failed_since_last_clear, None);
    assert_eq!(s.mask, None);
}

#[test]
fn model_of_empty_status_map_has_no_flags() {
    let s = fault_info_to_model(info("X", Some(StringHashMap::new()))).status.unwrap();
    assert_eq!(s.test_failed, None);
    assert_eq!(s.confirmed_dtc, None);
    assert_eq!(s.mask, None);
}

#[test]
fn filter_translates_status_key() {
    let q = FaultQueryParams {
        status: Some(StatusWrapper { key: FaultStatusKeys::ConfirmedDtc }),
        severity: Some(3),
        scope: Some("ivi".to_string()),
        include_schema: true,
    };
    let f = fault_filter(q);
    assert_eq!(f.status.as_deref(), Some("confirmedDTC"));
    assert_eq!(f.severity, Some(3));
    assert_eq!(f.scope.as_deref(), Some("ivi"));
}

#[test]
fn filter_without_criteria_is_empty() {
    let q = FaultQueryParams { status: None, severity: None, scope: None, include_schema: false };
    let f = fault_filter(q);
    assert!(f.status.is_none());
    assert!(f.severity.is_none());
    assert!(f.scope.is_none());
}

#[test]
fn listing_keeps_order() {
    let items = faults_to_items(vec![info("A", None), info("B", None), info("C", None)]);
    let codes: Vec<&str> = items.iter().map(|f| f.code.as_str()).collect();
    assert_eq!(codes, vec!["A", "B", "C"]);
    assert!(faults_to_items(Vec::new()).is_empty());
}

#[test]
fn single_fault_response_has_no_schema() {
    let r = fault_response(info("A", Some(status_map(&[("testFailed", "1")]))));
    assert_eq!(r.items.code, "A");
    assert_eq!(r.items.status.unwrap().test_failed, Some(true));
    assert!(r.schema.is_none());
}

#[test]
fn unknown_component_is_entity_not_found() {
    match select_fault_provider::<u8>("ecu".to_string(), None) {
        Err(RouteError::EntityNotFound(id)) => assert_eq!(id, "ecu"),
        other => panic!("unexpected {other:?}"),
    }
}

#[test]
fn component_without_provider_is_provider_not_available() {
    match select_fault_provider::<u8>("ecu".to_string(), Some(None)) {
        Err(RouteError::ProviderNotAvailable(kind)) => assert_eq!(kind, "faults"),
        other => panic!("unexpected {other:?}"),
    }
}

#[test]
fn component_with_provider_is_selected() {
    match select_fault_provider("ecu".to_string(), Some(Some(7u8))) {
        Ok(p) => assert_eq!(p, 7),
        other => panic!("unexpected {other:?}"),
    }
}

#[test]
fn fault_error_messages() {
    assert_eq!(FaultError::NotFound("P0001".to_string()).message(), "fault not found: P0001");
    assert_eq!(FaultError::Internal("ipc down".to_string()).message(), "internal error: ipc down");
}
