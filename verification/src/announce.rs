//! The `mdns_sd::ServiceInfo` a server hands to the mDNS daemon, kept with
//! the record it was built from. Only the call of `ServiceInfo::new` below
//! makes one, so the record cannot be set apart from the info it describes.

use vstd::prelude::*;

use crate::mdns::{service_info_ip_accepted, txt_keys_valid, ServiceRecord, ServiceRecordView};

verus! {

/// An `mdns_sd::ServiceInfo` together with the record it was built from.
pub struct BuiltServiceInfo {
    info: mdns_sd::ServiceInfo,
    record: Ghost<ServiceRecordView>,
}

impl BuiltServiceInfo {
    /// The record whose fields `mdns_sd::ServiceInfo::new` built the service
    /// info from.
    pub closed spec fn record(&self) -> ServiceRecordView {
        self.record@
    }

    /// The service info, to hand to the mDNS daemon.
    pub fn into_info(self) -> mdns_sd::ServiceInfo {
        self.info
    }
}

/// Calls `mdns_sd::ServiceInfo::new(type, instance, host, ip, port, &txt[..])`
/// with the record's fields, and keeps the record beside the result.
/// Per its source, the call fails when an address in `ip` does not parse, and
/// otherwise exactly when a TXT key it keeps is not ASCII or holds `=`; it
/// keeps the first of the keys that are equal ignoring case. So: success needs
/// `ip` accepted, and `ip` accepted with all keys valid gives success. Which
/// invalid keys are dropped as duplicates is not stated.
#[verifier::external_body]
pub(crate) fn new_service_info(record: &ServiceRecord) -> (info: Result<BuiltServiceInfo, mdns_sd::Error>)
    ensures
        info is Ok ==> service_info_ip_accepted(record.ip@),
        service_info_ip_accepted(record.ip@) && txt_keys_valid(record@.txt) ==> info is Ok,
        info matches Ok(built) ==> built.record() == record@,
{
    let txt = &record.txt[..];
    match mdns_sd::ServiceInfo::new(&record.service_type, &record.instance_name, &record.host_name, record.ip.as_str(), record.port, txt) {
        Ok(info) => Ok(BuiltServiceInfo { info, record: Ghost(record@) }),
        Err(e) => Err(e),
    }
}

} // verus!
