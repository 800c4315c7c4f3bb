use opensovd::{advertisement, resolve_host};

#[test]
fn explicit_host_wins() {
    assert_eq!(resolve_host(Some(1u8), Some(2u8)), Some(1));
    assert_eq!(resolve_host(Some(1u8), None), Some(1));
}

#[test]
fn url_host_is_the_fallback() {
    assert_eq!(resolve_host(None, Some(2u8)), Some(2));
    assert_eq!(resolve_host::<u8>(None, None), None);
}

#[test]
fn advertisement_defaults_identification_to_name() {
    let ad = advertisement("gateway", None, "10.0.0.5", 7690, "/sovd");
    assert_eq!(ad.identification, "gateway");
    assert_eq!(ad.access_url, "http://10.0.0.5:7690/sovd");
}

#[test]
fn advertisement_uses_configured_identification() {
    let ad = advertisement("gateway", Some("VIN42"), "::1", 80, "/api/sovd");
    assert_eq!(ad.identification, "VIN42");
    assert_eq!(ad.access_url, "http://::1:80/api/sovd");
}
