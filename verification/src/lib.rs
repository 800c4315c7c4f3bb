//! Fault data model, fault-route logic and mDNS-SD discovery logic of an SOVD
//! (Service-Oriented Vehicle Diagnostics) server, with their contracts.
//!
//! - [`models`]: the fault data model of the SOVD HTTP API.
//! - [`faults`]: what a component's Diagnostic Fault Manager reports.
//! - [`routes`]: the logic of the fault endpoints.
//! - [`entities`]: components and references to them.
//! - [`mdns`]: the service record a server registers and what browse events mean.
//! - [`gateway`]: what the gateway advertises about itself.
//! - [`text`]: decimal numbers, URLs and host names.

pub mod announce;
pub mod entities;
pub mod faults;
pub mod gateway;
pub mod mdns;
pub mod models;
pub mod routes;
pub mod schema;
pub mod text;

pub use announce::BuiltServiceInfo;
pub use entities::{Component, ComponentView, EntityCollection, EntityKind, EntityRef};
pub use faults::{FaultError, FaultFilter, FaultInfo, FaultResult};
pub use gateway::{advertisement, resolve_host, Advertisement};
pub use mdns::{
    convert_event, service_info, service_record, service_registration, BrowseEvent,
    MdnsError, ResolvedService, ServiceRecord, ServiceRecordView, SERVICE_TYPE,
    TXT_ACCESS_URL, TXT_IDENTIFICATION,
};
pub use models::{
    Fault, FaultData, FaultQueryParams, FaultResponse, FaultStatus, FaultStatusKeys, StatusWrapper,
};
pub use routes::{
    fault_filter, fault_info_to_model, fault_response, faults_to_items, select_fault_provider,
    status_key_to_str, RouteError,
};
pub use vstd::hash_map::StringHashMap;
