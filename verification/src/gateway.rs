//! What the gateway advertises about itself on mDNS.

use vstd::prelude::*;

use crate::text::{format_http_url, http_url};

verus! {

/// Returns the address to advertise on mDNS: the one given explicitly, else
/// the server URL's host when that host is itself an IP address (`from_url`
/// is that host parsed as an address, `None` when it does not parse).
pub fn resolve_host<A>(explicit: Option<A>, from_url: Option<A>) -> (ip: Option<A>)
    ensures
        ip == (match explicit {
            Some(a) => Some(a),
            None => from_url,
        }),
{
    match explicit {
        Some(ip) => Some(ip),
        None => from_url,
    }
}

/// What a server registers about itself on mDNS.
pub struct Advertisement {
    /// The identification TXT record.
    pub identification: String,
    /// The access URL TXT record.
    pub access_url: String,
}

/// The advertisement of a server: its identification (the configured one,
/// else its instance name) and the access URL `http://{ip}:{port}{base_path}`.
pub fn advertisement(
    instance_name: &str,
    identification: Option<&str>,
    ip: &str,
    port: u16,
    base_path: &str,
) -> (ad: Advertisement)
    ensures
        ad.identification@ == (match identification {
            Some(id) => id@,
            None => instance_name@,
        }),
        ad.access_url@ == http_url(ip@, port, base_path@),
{
    let identification = match identification {
        Some(id) => id.to_owned(),
        None => instance_name.to_owned(),
    };
    Advertisement { identification, access_url: format_http_url(ip, port, base_path) }
}

} // verus!
