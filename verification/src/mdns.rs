//! mDNS-SD advertisement and discovery of SOVD servers: the service record a
//! server registers, and the entity changes a browse event stands for.

use vstd::prelude::*;
use vstd::hash_map::StringHashMap;
use vstd::string::StringExecFns;

use crate::announce::{new_service_info, BuiltServiceInfo};
use crate::entities::{Component, ComponentView, EntityCollection, EntityKind, EntityRef};
use crate::text::{
    decimal, format_http_url, http_url, lemma_trim_trailing_dots, trim_end_dots, trim_trailing_dots,
};

verus! {

/// mDNS service type of SOVD servers.
pub const SERVICE_TYPE: &'static str = "_sovd._tcp.local.";

/// TXT record key of the server's identification (VIN or device id).
pub const TXT_IDENTIFICATION: &'static str = "identification";

/// TXT record key of the server's access URL.
pub const TXT_ACCESS_URL: &'static str = "accessurl";


/// `mdns_sd::ServiceInfo`, a service record ready to be registered, carried
/// through the library unread.
#[verifier::external_type_specification]
#[verifier::external_body]
pub struct ExServiceInfo(mdns_sd::ServiceInfo);

/// `mdns_sd::Error`, an error of the mDNS-SD daemon or of its records,
/// carried through the library unread.
#[verifier::external_type_specification]
#[verifier::external_body]
pub struct ExMdnsSdError(mdns_sd::Error);

/// Errors of mDNS registration and daemon operations.
pub enum MdnsError {
    /// The mDNS-SD daemon failed.
    Daemon(mdns_sd::Error),
    /// The service record could not be built; the text says why.
    ServiceInfo(String),
}

/// The host name a server registers under: `{instance}.local.`.
pub open spec fn registration_host_name(instance: Seq<char>) -> Seq<char> {
    instance + ".local."@
}

/// The TXT records a server registers: its identification and access URL.
pub open spec fn registration_txt(identification: Seq<char>, access_url: Seq<char>) -> Seq<
    (Seq<char>, Seq<char>),
> {
    seq![(TXT_IDENTIFICATION@, identification), (TXT_ACCESS_URL@, access_url)]
}

/// TXT records whose keys are all ASCII (control characters included) and hold
/// no `=`: the keys `mdns_sd::ServiceInfo::new` accepts (RFC 6763, 6.4).
pub open spec fn txt_keys_valid(txt: Seq<(Seq<char>, Seq<char>)>) -> bool {
    forall|i: int|
        0 <= i < txt.len() ==> vstd::utf8::is_ascii_chars(#[trigger] txt[i].0) && !txt[i].0.contains(
            '=',
        )
}

/// TXT records as plain values.
pub open spec fn txt_view(txt: Seq<(String, String)>) -> Seq<(Seq<char>, Seq<char>)> {
    txt.map_values(|p: (String, String)| (p.0@, p.1@))
}

/// Whether `mdns_sd::ServiceInfo::new` accepts the text of its `ip` argument:
/// the text split at each `,`, each piece trimmed of surrounding whitespace and
/// parsed as an `std::net::IpAddr` (the empty text is the empty list).
pub uninterp spec fn service_info_ip_accepted(ip: Seq<char>) -> bool;

/// The service record a SOVD server registers on mDNS, as plain values.
pub struct ServiceRecord {
    /// The service type with its domain: `_sovd._tcp.local.`.
    pub service_type: String,
    /// The instance name.
    pub instance_name: String,
    /// The host name: `{instance}.local.`.
    pub host_name: String,
    /// The text of the host's address.
    pub ip: String,
    /// The port the server listens on.
    pub port: u16,
    /// The TXT records: identification, then access URL.
    pub txt: Vec<(String, String)>,
}

/// A service record as plain values.
#[verifier::ext_equal]
pub struct ServiceRecordView {
    pub service_type: Seq<char>,
    pub instance_name: Seq<char>,
    pub host_name: Seq<char>,
    pub ip: Seq<char>,
    pub port: u16,
    pub txt: Seq<(Seq<char>, Seq<char>)>,
}

impl View for ServiceRecord {
    type V = ServiceRecordView;

    open spec fn view(&self) -> ServiceRecordView {
        ServiceRecordView {
            service_type: self.service_type@,
            instance_name: self.instance_name@,
            host_name: self.host_name@,
            ip: self.ip@,
            port: self.port,
            txt: txt_view(self.txt@),
        }
    }
}

/// The service record of a SOVD server: type `_sovd._tcp.local.`, the instance
/// name, host `{instance}.local.`, the address text, the port, and the
/// identification and access URL TXT records.
pub open spec fn service_record_of(
    instance: Seq<char>,
    identification: Seq<char>,
    access_url: Seq<char>,
    ip: Seq<char>,
    port: u16,
) -> ServiceRecordView {
    ServiceRecordView {
        service_type: SERVICE_TYPE@,
        instance_name: instance,
        host_name: registration_host_name(instance),
        ip,
        port,
        txt: registration_txt(identification, access_url),
    }
}

/// Calls `<mdns_sd::Error as ToString>::to_string`, the error's text. Nothing
/// is stated of the text.
#[verifier::external_body]
fn mdns_error_text(e: &mdns_sd::Error) -> String {
    e.to_string()
}

/// Builds the service record of a SOVD server.
pub fn service_record(
    instance_name: &str,
    identification: &str,
    access_url: &str,
    host_ip: &str,
    port: u16,
) -> (record: ServiceRecord)
    ensures
        record@ == service_record_of(instance_name@, identification@, access_url@, host_ip@, port),
{
    let mut host_name = instance_name.to_owned();
    host_name.append(".local.");
    let mut txt: Vec<(String, String)> = Vec::new();
    txt.push((TXT_IDENTIFICATION.to_owned(), identification.to_owned()));
    txt.push((TXT_ACCESS_URL.to_owned(), access_url.to_owned()));
    assert(txt_view(txt@) =~= registration_txt(identification@, access_url@));
    let record = ServiceRecord {
        service_type: SERVICE_TYPE.to_owned(),
        instance_name: instance_name.to_owned(),
        host_name,
        ip: host_ip.to_owned(),
        port,
        txt,
    };
    assert(record@ =~= service_record_of(instance_name@, identification@, access_url@, host_ip@, port));
    record
}

/// Turns a service record into an `mdns_sd::ServiceInfo` built from exactly
/// that record. It is refused when its address text is; with the address
/// accepted and valid TXT keys it is built. A refusal is
/// `MdnsError::ServiceInfo` holding the mdns-sd error's text
/// (`mdns_sd::Error::to_string`); that the text is this one is not stated, as
/// `mdns_sd::Error` is opaque here and no clause can speak of what it holds.
pub fn service_info(record: &ServiceRecord) -> (info: Result<BuiltServiceInfo, MdnsError>)
    ensures
        info is Ok ==> service_info_ip_accepted(record.ip@),
        service_info_ip_accepted(record.ip@) && txt_keys_valid(record@.txt) ==> info is Ok,
        info matches Ok(built) ==> built.record() == record@,
        info matches Err(e) ==> e is ServiceInfo,
{
    match new_service_info(record) {
        Ok(info) => Ok(info),
        Err(e) => Err(MdnsError::ServiceInfo(mdns_error_text(&e))),
    }
}

/// The registered TXT keys are valid RFC 6763 keys.
pub proof fn lemma_registration_keys_valid(identification: Seq<char>, access_url: Seq<char>)
    ensures
        txt_keys_valid(registration_txt(identification, access_url)),
{
    reveal_strlit("identification");
    reveal_strlit("accessurl");
    let txt = registration_txt(identification, access_url);
    assert forall|i: int| 0 <= i < txt.len() implies vstd::utf8::is_ascii_chars(
        #[trigger] txt[i].0,
    ) && !txt[i].0.contains('=') by {
        let k = txt[i].0;
        assert forall|j: int| 0 <= j < k.len() implies k[j] != '=' && '\0' <= k[j] <= '\u{7f}' by {
        }
    }
}

/// The `mdns_sd::ServiceInfo` a SOVD server registers: built from the
/// [`service_record`] of the same arguments. It is refused exactly when the
/// address text is; the error is then `MdnsError::ServiceInfo` holding the
/// mdns-sd error's text (not stated, as for [`service_info`]).
pub fn service_registration(
    instance_name: &str,
    identification: &str,
    access_url: &str,
    host_ip: &str,
    port: u16,
) -> (info: Result<BuiltServiceInfo, MdnsError>)
    ensures
        info is Ok <==> service_info_ip_accepted(host_ip@),
        info matches Ok(built) ==> built.record() == service_record_of(
            instance_name@,
            identification@,
            access_url@,
            host_ip@,
            port,
        ),
        info matches Err(e) ==> e is ServiceInfo,
{
    let record = service_record(instance_name, identification, access_url, host_ip, port);
    proof {
        lemma_registration_keys_valid(identification@, access_url@);
    }
    service_info(&record)
}

/// Whether a service type names a subtype (holds the label `._sub.`); mdns-sd
/// then keeps only the part after the last such label as the type.
pub open spec fn names_subtype(service_type: Seq<char>) -> bool {
    exists|i: int|
        0 <= i && i + 6 <= service_type.len() && #[trigger] service_type.subrange(i, i + 6)
            == "._sub."@
}

/// The full name `mdns_sd::ServiceInfo::new` gives a record whose type names
/// no subtype: `{instance}.{type}`.
pub open spec fn announced_fullname(r: ServiceRecordView) -> Seq<char>
    recommends
        !names_subtype(r.service_type),
{
    r.instance_name + "."@ + r.service_type
}

/// The host `mdns_sd::ServiceInfo::new` keeps for a record: its host name,
/// except that a trailing `.local.local.` is shortened to `.local.`.
pub open spec fn announced_host(r: ServiceRecordView) -> Seq<char> {
    let h = r.host_name;
    if h.len() >= 13 && h.subrange(h.len() - 13, h.len() as int) == ".local.local."@ {
        h.subrange(0, h.len() - 6)
    } else {
        h
    }
}

/// A text with its ASCII capitals lowered (`to_lowercase` on ASCII text).
pub open spec fn ascii_lower(s: Seq<char>) -> Seq<char> {
    s.map_values(|c: char| if 'A' <= c <= 'Z' { ((c as u32) + 32) as char } else { c })
}

/// The TXT records `mdns_sd::ServiceInfo::new` keeps for ASCII keys: the first
/// of those whose keys are equal ignoring case, in their order.
pub open spec fn announced_txt(txt: Seq<(Seq<char>, Seq<char>)>) -> Seq<(Seq<char>, Seq<char>)>
    decreases txt.len(),
{
    if txt.len() == 0 {
        seq![]
    } else {
        let kept = announced_txt(txt.drop_last());
        if exists|i: int|
            0 <= i < txt.len() - 1 && #[trigger] ascii_lower(txt[i].0) == ascii_lower(txt.last().0) {
            kept
        } else {
            kept.push(txt.last())
        }
    }
}

/// An instance name ending in `.local`, for which mdns-sd shortens the host.
pub open spec fn ends_with_local(instance: Seq<char>) -> bool {
    instance.len() >= 6 && instance.subrange(instance.len() - 6, instance.len() as int) == ".local"@
}

/// A successful registration announces type `_sovd._tcp.local.`, full name
/// `{instance}._sovd._tcp.local.`, host `{instance}.local.` and exactly the
/// identification and access URL TXT records, at the given address and port,
/// for every instance name that does not end in `.local`.
pub proof fn lemma_registration_announces(
    instance: Seq<char>,
    identification: Seq<char>,
    access_url: Seq<char>,
    ip: Seq<char>,
    port: u16,
)
    requires
        !ends_with_local(instance),
    ensures
        ({
            let r = service_record_of(instance, identification, access_url, ip, port);
            &&& !names_subtype(r.service_type)
            &&& r.service_type == SERVICE_TYPE@
            &&& announced_fullname(r) == instance + "."@ + SERVICE_TYPE@
            &&& announced_host(r) == instance + ".local."@
            &&& announced_txt(r.txt) == seq![
                (TXT_IDENTIFICATION@, identification),
                (TXT_ACCESS_URL@, access_url),
            ]
            &&& r.ip == ip
            &&& r.port == port
        }),
{
    reveal_strlit("_sovd._tcp.local.");
    reveal_strlit("._sub.");
    reveal_strlit(".local.");
    reveal_strlit(".local.local.");
    reveal_strlit(".local");
    reveal_strlit("identification");
    reveal_strlit("accessurl");
    let r = service_record_of(instance, identification, access_url, ip, port);
    let ty = r.service_type;
    assert forall|i: int| 0 <= i && i + 6 <= ty.len() implies #[trigger] ty.subrange(i, i + 6)
        != "._sub."@ by {
        if ty.subrange(i, i + 6) == "._sub."@ {
            assert(ty.subrange(i, i + 6)[3] == 'u');
            assert(ty[i + 3] == 'u');
        }
    }
    let h = r.host_name;
    if h.len() >= 13 && h.subrange(h.len() - 13, h.len() as int) == ".local.local."@ {
        assert(instance.subrange(instance.len() - 6, instance.len() as int) =~= h.subrange(
            h.len() - 13,
            h.len() - 7,
        ));
        assert(h.subrange(h.len() - 13, h.len() - 7) =~= ".local.local."@.subrange(0, 6));
        assert(".local.local."@.subrange(0, 6) =~= ".local"@);
    }
    let txt = r.txt;
    assert(txt.drop_last().drop_last() =~= seq![]);
    assert(ascii_lower(txt[0].0).len() != ascii_lower(txt[1].0).len());
    let first = txt.drop_last();
    assert(first =~= seq![txt[0]]);
    assert(first.drop_last() =~= seq![]);
    assert(announced_txt(first.drop_last()) == Seq::<(Seq<char>, Seq<char>)>::empty());
    assert(announced_txt(first) =~= seq![txt[0]]);
}

/// A service the browser resolved, as the plain values discovery reads.
pub struct ResolvedService {
    /// The service instance's full name.
    pub fullname: String,
    /// The host name the service runs on.
    pub hostname: String,
    /// The service's port.
    pub port: u16,
    /// The text forms of the service's addresses, in the browser's order.
    pub addresses: Vec<String>,
    /// The value of its `accessurl` TXT property, if it has one.
    pub access_url: Option<String>,
    /// The value of its `identification` TXT property, if it has one.
    pub identification: Option<String>,
}

/// An event of an mDNS browse.
pub enum BrowseEvent {
    /// A service instance was resolved.
    Resolved(ResolvedService),
    /// A service instance `(service_type, fullname)` left the network.
    Removed(String, String),
    /// Any other browse event (search started or stopped, service found).
    Other,
}

/// The URL a discovered server is reached at: its `accessurl` TXT property,
/// or else `http://{address}:{port}/sovd` for its first address, or else
/// `http://{host}:{port}/sovd` for its host name without trailing dots.
pub open spec fn discovered_access_url(info: ResolvedService) -> Seq<char> {
    match info.access_url {
        Some(url) => url@,
        None => if info.addresses@.len() > 0 {
            http_url(info.addresses@[0]@, info.port, "/sovd"@)
        } else {
            http_url(trim_trailing_dots(info.hostname@), info.port, "/sovd"@)
        },
    }
}

/// The metadata of a discovered server: its access URL, and its
/// identification when it advertises one.
pub open spec fn discovered_metadata(info: ResolvedService) -> Map<Seq<char>, Seq<char>> {
    let m = Map::<Seq<char>, Seq<char>>::empty().insert(
        TXT_ACCESS_URL@,
        discovered_access_url(info),
    );
    match info.identification {
        Some(id) => m.insert(TXT_IDENTIFICATION@, id@),
        None => m,
    }
}

/// The component a resolved server stands for: id its full name, name its
/// host name without trailing dots.
pub open spec fn discovered_component(info: ResolvedService) -> ComponentView {
    ComponentView {
        id: info.fullname@,
        name: trim_trailing_dots(info.hostname@),
        metadata: discovered_metadata(info),
    }
}

/// The entity changes a browse event stands for: the ids of the components it
/// withdraws and the components it adds; none for events that change nothing.
pub open spec fn event_changes(event: BrowseEvent) -> Option<(Seq<Seq<char>>, Seq<ComponentView>)> {
    match event {
        BrowseEvent::Resolved(info) => Some((seq![], seq![discovered_component(info)])),
        BrowseEvent::Removed(_service_type, fullname) => Some((seq![fullname@], seq![])),
        BrowseEvent::Other => None,
    }
}

/// Converts a browse event into the entities it withdraws and adds.
pub fn convert_event(event: BrowseEvent) -> (changes: Option<(Vec<EntityRef>, EntityCollection)>)
    ensures
        match changes {
            Some((removed, added)) => {
                &&& event_changes(event) == Some(
                    (removed@.map_values(|r: EntityRef| r.id@), added.component_views()),
                )
                &&& forall|i: int| 0 <= i < removed@.len() ==> #[trigger] removed@[i].kind == EntityKind::Component
            },
            None => event_changes(event) is None,
        },
{
    match event {
        BrowseEvent::Resolved(info) => {
            let ghost spec_info = info;
            let name = trim_end_dots(info.hostname.as_str());
            let access_url = match info.access_url {
                Some(url) => url,
                None => if info.addresses.len() > 0 {
                    format_http_url(info.addresses[0].as_str(), info.port, "/sovd")
                } else {
                    format_http_url(name.as_str(), info.port, "/sovd")
                },
            };
            assert(access_url@ == discovered_access_url(spec_info));
            let mut metadata: StringHashMap<String> = StringHashMap::new();
            metadata.insert(TXT_ACCESS_URL.to_owned(), access_url);
            match info.identification {
                Some(ident) => {
                    metadata.insert(TXT_IDENTIFICATION.to_owned(), ident);
                },
                None => {},
            }
            let component = Component::new(info.fullname, name).with_metadata(metadata);
            assert(component@ =~= discovered_component(spec_info));
            let mut collection = EntityCollection::default();
            collection.add_component(component);
            let removed: Vec<EntityRef> = Vec::new();
            assert(removed@.map_values(|r: EntityRef| r.id@) =~= seq![]);
            assert(collection.component_views() =~= seq![discovered_component(spec_info)]);
            Some((removed, collection))
        },
        BrowseEvent::Removed(_service_type, fullname) => {
            let ghost id = fullname@;
            let mut removed: Vec<EntityRef> = Vec::new();
            removed.push(EntityRef::component(fullname));
            let collection = EntityCollection::default();
            assert(removed@.map_values(|r: EntityRef| r.id@) =~= seq![id]);
            assert(collection.component_views() =~= seq![]);
            Some((removed, collection))
        },
        BrowseEvent::Other => None,
    }
}


/// A server that registered as `instance` (a name not ending in `.local`)
/// with an identification and access URL is discovered, once resolved with the
/// full name, host name, port and TXT values that registration announces, as
/// the component with id `{instance}._sovd._tcp.local.` and name
/// `{instance}.local` whose metadata is exactly those two TXT records.
pub proof fn lemma_registration_round_trip(
    instance: Seq<char>,
    identification: Seq<char>,
    access_url: Seq<char>,
    ip: Seq<char>,
    port: u16,
    info: ResolvedService,
)
    requires
        !ends_with_local(instance),
        info.fullname@ == announced_fullname(service_record_of(instance, identification, access_url, ip, port)),
        info.hostname@ == announced_host(service_record_of(instance, identification, access_url, ip, port)),
        info.port == port,
        info.access_url matches Some(url) && url@ == access_url,
        info.identification matches Some(id) && id@ == identification,
    ensures
        discovered_component(info) == (ComponentView {
            id: instance + "."@ + SERVICE_TYPE@,
            name: instance + ".local"@,
            metadata: map![TXT_ACCESS_URL@ => access_url, TXT_IDENTIFICATION@ => identification],
        }),
{
    lemma_registration_announces(instance, identification, access_url, ip, port);
    reveal_strlit(".local.");
    reveal_strlit(".local");
    let host = registration_host_name(instance);
    assert(host.last() == '.');
    assert(host.drop_last() =~= instance + ".local"@);
    assert((instance + ".local"@).last() == 'l');
    assert(trim_trailing_dots(host.drop_last()) == host.drop_last());
    assert(trim_trailing_dots(host) == instance + ".local"@);
    assert(discovered_metadata(info) =~= map![TXT_ACCESS_URL@ => access_url, TXT_IDENTIFICATION@ => identification]);
}

/// The removal of a service withdraws exactly the component that the
/// resolution of the same service added: both carry its full name as id.
pub proof fn lemma_removal_withdraws_resolved(
    info: ResolvedService,
    service_type: String,
    fullname: String,
)
    requires
        fullname@ == info.fullname@,
    ensures
        event_changes(BrowseEvent::Resolved(info)) matches Some((_, added))
            && event_changes(BrowseEvent::Removed(service_type, fullname)) matches Some((removed, _))
            && added.len() == 1 && removed == seq![added[0].id],
{
}


/// What discovery makes of a resolved server, stated field by field: the
/// component's id is the service's full name; its name is the host name
/// without its trailing dots (a prefix of it, the rest all dots, itself
/// without a trailing dot); its metadata holds the access URL always and the
/// identification exactly when the service advertises one, and nothing else.
/// The identification is the advertised value, however the URL was found; the
/// URL is the advertised one, or else `http://{first address}:{port}/sovd`, or
/// else `http://{name}:{port}/sovd`.
pub proof fn lemma_discovered_component_fields(info: ResolvedService)
    ensures
        discovered_component(info).id == info.fullname@,
        ({
            let name = discovered_component(info).name;
            let host = info.hostname@;
            &&& name.len() <= host.len()
            &&& name == host.subrange(0, name.len() as int)
            &&& forall|i: int| name.len() <= i < host.len() ==> host[i] == '.'
            &&& name.len() == 0 || name.last() != '.'
        }),
        ({
            let md = discovered_component(info).metadata;
            &&& md.contains_key("accessurl"@)
            &&& md.contains_key("identification"@) <==> info.identification is Some
            &&& info.identification matches Some(id) ==> md["identification"@] == id@
            &&& forall|k: Seq<char>| #[trigger] md.contains_key(k) ==> k == "accessurl"@ || k == "identification"@
            &&& info.access_url matches Some(url) ==> md["accessurl"@] == url@
            &&& (info.access_url is None && info.addresses@.len() > 0) ==> md["accessurl"@]
                == "http://"@ + info.addresses@[0]@ + ":"@ + decimal(info.port as nat) + "/sovd"@
            &&& (info.access_url is None && info.addresses@.len() == 0) ==> md["accessurl"@]
                == "http://"@ + discovered_component(info).name + ":"@ + decimal(info.port as nat) + "/sovd"@
        }),
{
    reveal_strlit("accessurl");
    reveal_strlit("identification");
    lemma_trim_trailing_dots(info.hostname@);
    assert("accessurl"@ != "identification"@) by {
        assert("accessurl"@.len() != "identification"@.len());
    }
}

/// The removal of a service withdraws exactly the component with its full
/// name as id, and adds nothing; events other than resolution and removal
/// change nothing.
pub proof fn lemma_removal_and_other_events(service_type: String, fullname: String)
    ensures
        event_changes(BrowseEvent::Removed(service_type, fullname)) == Some(
            (seq![fullname@], Seq::<ComponentView>::empty()),
        ),
        event_changes(BrowseEvent::Other) is None,
{
}

} // verus!
