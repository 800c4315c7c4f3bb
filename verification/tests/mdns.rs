use opensovd::text::{format_http_url, push_decimal, trim_end_dots};
use opensovd::{
    convert_event, service_info, service_record, service_registration, BrowseEvent, EntityKind, MdnsError, ResolvedService,
    SERVICE_TYPE, TXT_ACCESS_URL, TXT_IDENTIFICATION,
};

fn resolved(
    hostname: &str,
    addresses: &[&str],
    access_url: Option<&str>,
    identification: Option<&str>,
) -> ResolvedService {
    ResolvedService {
        fullname: "srv-a._sovd._tcp.local.".to_string(),
        hostname: hostname.to_string(),
        port: 7690,
        addresses: addresses.iter().map(|a| a.to_string()).collect(),
        access_url: access_url.map(str::to_string),
        identification: identification.map(str::to_string),
    }
}

#[test]
fn constants() {
    assert_eq!(SERVICE_TYPE, "_sovd._tcp.local.");
    assert_eq!(TXT_IDENTIFICATION, "identification");
    assert_eq!(TXT_ACCESS_URL, "accessurl");
}

#[test]
fn resolved_with_access_url_property() {
    let ev = BrowseEvent::Resolved(resolved(
        "srv-a.local.",
        &["10.0.0.5"],
        Some("http://10.0.0.5:7690/sovd"),
        Some("VIN123"),
    ));
    let (removed, added) = convert_event(ev).unwrap();
    assert!(removed.is_empty());
    assert_eq!(added.components.len(), 1);
    let c = &added.components[0];
    assert_eq!(c.id, "srv-a._sovd._tcp.local.");
    assert_eq!(c.name, "srv-a.local");
    assert_eq!(c.metadata.len(), 2);
    assert_eq!(c.metadata.get("accessurl").map(String::as_str), Some("http://10.0.0.5:7690/sovd"));
    assert_eq!(c.metadata.get("identification").map(String::as_str), Some("VIN123"));
}

#[test]
fn resolved_without_property_uses_first_address() {
    let ev = BrowseEvent::Resolved(resolved("srv-a.local.", &["192.168.1.7", "10.0.0.1"], None, None));
    let (_, added) = convert_event(ev).unwrap();
    let c = &added.components[0];
    assert_eq!(c.metadata.len(), 1);
    assert_eq!(c.metadata.get("accessurl").map(String::as_str), Some("http://192.168.1.7:7690/sovd"));
    assert!(c.metadata.get("identification").is_none());
}

#[test]
fn resolved_without_address_uses_host_name() {
    let ev = BrowseEvent::Resolved(resolved("ecu.local...", &[], None, Some("")));
    let (_, added) = convert_event(ev).unwrap();
    let c = &added.components[0];
    assert_eq!(c.name, "ecu.local");
    assert_eq!(c.metadata.get("accessurl").map(String::as_str), Some("http://ecu.local:7690/sovd"));
    assert_eq!(c.metadata.get("identification").map(String::as_str), Some(""));
}

#[test]
fn removed_withdraws_the_component() {
    let ev = BrowseEvent::Removed(SERVICE_TYPE.to_string(), "srv-a._sovd._tcp.local.".to_string());
    let (removed, added) = convert_event(ev).unwrap();
    assert_eq!(removed.len(), 1);
    assert_eq!(removed[0].kind, EntityKind::Component);
    assert_eq!(removed[0].id, "srv-a._sovd._tcp.local.");
    assert!(added.components.is_empty());
}

#[test]
fn removal_matches_resolution() {
    let (_, added) = convert_event(BrowseEvent::Resolved(resolved("h.local.", &[], None, None))).unwrap();
    let (removed, _) = convert_event(BrowseEvent::Removed(
        SERVICE_TYPE.to_string(),
        "srv-a._sovd._tcp.local.".to_string(),
    ))
    .unwrap();
    assert_eq!(removed[0].id, added.components[0].id);
}

#[test]
fn other_events_change_nothing() {
    assert!(convert_event(BrowseEvent::Other).is_none());
}

#[test]
fn service_record_fields() {
    let r = service_record("gateway", "VIN9", "http://10.1.2.3:80/sovd", "10.1.2.3", 80);
    assert_eq!(r.service_type, "_sovd._tcp.local.");
    assert_eq!(r.instance_name, "gateway");
    assert_eq!(r.host_name, "gateway.local.");
    assert_eq!(r.ip, "10.1.2.3");
    assert_eq!(r.port, 80);
    assert_eq!(
        r.txt,
        vec![
            ("identification".to_string(), "VIN9".to_string()),
            ("accessurl".to_string(), "http://10.1.2.3:80/sovd".to_string()),
        ]
    );
}

#[test]
fn registration_round_trip() {
    let r = service_record("gateway", "VIN9", "http://10.1.2.3:80/sovd", "10.1.2.3", 80);
    let ev = BrowseEvent::Resolved(resolved(&r.host_name, &["10.1.2.3"], Some(&r.txt[1].1), Some(&r.txt[0].1)));
    let (_, added) = convert_event(ev).unwrap();
    let c = &added.components[0];
    assert_eq!(c.name, "gateway.local");
    assert_eq!(c.metadata.len(), 2);
    assert_eq!(c.metadata.get("accessurl").map(String::as_str), Some("http://10.1.2.3:80/sovd"));
    assert_eq!(c.metadata.get("identification").map(String::as_str), Some("VIN9"));
}

#[test]
fn service_info_refuses_bad_txt_key() {
    let mut r = service_record("gw", "VIN9", "u", "10.0.0.5", 1);
    assert!(service_info(&r).is_ok());
    r.txt.push(("a=b".to_string(), "x".to_string()));
    assert!(matches!(service_info(&r), Err(MdnsError::ServiceInfo(_))));
    r.txt.pop();
    r.txt.push(("schlüssel".to_string(), "x".to_string()));
    assert!(matches!(service_info(&r), Err(MdnsError::ServiceInfo(_))));
}

#[test]
fn service_registration_accepts_an_address() {
    assert!(service_registration("gw", "VIN9", "http://10.0.0.5:7690/sovd", "10.0.0.5", 7690).is_ok());
    assert!(service_registration("gw", "VIN9", "http://[::1]:7690/sovd", "::1", 7690).is_ok());
}

#[test]
fn service_registration_refuses_a_bad_address() {
    match service_registration("gw", "VIN9", "x", "not-an-ip", 7690) {
        Err(MdnsError::ServiceInfo(text)) => assert!(text.starts_with("parsing of ip addr failed")),
        Err(MdnsError::Daemon(_)) => panic!("unexpected daemon error"),
        Ok(_) => panic!("a bad address was accepted"),
    }
}

#[test]
fn decimal_numbers() {
    for n in [0u16, 7, 10, 99, 100, 7690, 65535] {
        let mut s = String::from("p=");
        push_decimal(&mut s, n);
        assert_eq!(s, format!("p={n}"));
    }
}

#[test]
fn http_urls() {
    assert_eq!(format_http_url("10.0.0.5", 7690, "/sovd"), "http://10.0.0.5:7690/sovd");
    assert_eq!(format_http_url("h", 0, ""), "http://h:0");
}

#[test]
fn trailing_dots() {
    assert_eq!(trim_end_dots("a.b.."), "a.b");
    assert_eq!(trim_end_dots("..."), "");
    assert_eq!(trim_end_dots(""), "");
    assert_eq!(trim_end_dots("a.b"), "a.b");
    assert_eq!(trim_end_dots("ä.ö."), "ä.ö");
}

#[test]
fn registration_announces_the_record() {
    let info = service_registration("server-a", "VIN123", "http://10.0.0.5:7690/sovd", "10.0.0.5", 7690)
        .ok()
        .unwrap()
        .into_info();
    assert_eq!(info.get_type(), "_sovd._tcp.local.");
    assert_eq!(info.get_fullname(), "server-a._sovd._tcp.local.");
    assert_eq!(info.get_hostname(), "server-a.local.");
    assert_eq!(info.get_port(), 7690);
    assert_eq!(info.get_addresses().len(), 1);
    assert_eq!(info.get_property_val_str("identification"), Some("VIN123"));
    assert_eq!(info.get_property_val_str("accessurl"), Some("http://10.0.0.5:7690/sovd"));
    assert_eq!(info.get_properties().len(), 2);
}

#[test]
fn registration_of_a_local_instance_shortens_the_host() {
    let info = service_registration("ecu.local", "V", "u", "10.0.0.5", 1).ok().unwrap().into_info();
    assert_eq!(info.get_hostname(), "ecu.local.");
    assert_eq!(info.get_fullname(), "ecu.local._sovd._tcp.local.");
}
