//! Discovery bookkeeping: the TXT record a device announces, the device read
//! back from a resolved announcement, endpoint preference, and the registry
//! of devices seen on the network.

use vstd::prelude::*;
use crate::models::{
    DISCOVERY_PROTOCOL_VERSION, DeviceAvailability, DeviceCapabilities, DeviceId, DeviceStatus,
    DiscoveredDevice, DiscoveredDeviceView, TransportEndpoint, TransportEndpointView,
    opt_endpoint_view, opt_string_view,
};
use crate::net::{
    IpAddress, SocketAddress, endpoint_rank, preferred_address, rank_key, same_socket_address,
    select_preferred_ip_address,
};
use crate::diagnostics::{current_unix_ms, instant_now, monotonic_ms};
use crate::models::{DiscoveryEvent, DiscoveryEventView, DiscoverySnapshot, device_views, opt_event_view};
use crate::seqs::{any_index, first_index, is_first_index, lemma_first_exists, lemma_first_index_is, lemma_no_index};
use crate::text::{bool_string, bool_text, lemma_seq_lt_strict, lemma_seq_lt_total, seq_lt, str_lt, 
    append_str, decimal, decimal_string, parse_u16, parse_u16_spec, push_char, str_eq,
};

verus! {

/// What a device announces about itself on the network.
#[derive(Debug, Clone, PartialEq, Eq)]
pub struct DiscoveryAnnouncement {
    pub service_type: String,
    pub instance_name: String,
    pub port: u16,
}

/// The identity and abilities this device advertises.
#[derive(Debug, Clone, PartialEq, Eq)]
pub struct LocalDiscoveryProfile {
    pub device_id: DeviceId,
    pub device_name: String,
    pub app_version: String,
    pub capabilities: DeviceCapabilities,
    pub availability: DeviceAvailability,
    pub port: u16,
}

impl LocalDiscoveryProfile {
    pub fn new(
        device_id: &str,
        device_name: &str,
        app_version: &str,
        capabilities: DeviceCapabilities,
        availability: DeviceAvailability,
        port: u16,
    ) -> (r: Self)
        ensures
            r.device_id@ == device_id@,
            r.device_name@ == device_name@,
            r.app_version@ == app_version@,
            r.capabilities == capabilities,
            r.availability == availability,
            r.port == port,
    {
        LocalDiscoveryProfile {
            device_id: DeviceId::new(device_id),
            device_name: device_name.to_owned(),
            app_version: app_version.to_owned(),
            capabilities,
            availability,
            port,
        }
    }
}

/// What this device announces: the configured service type, its own name,
/// and the stream port.
pub fn announcement(service_type: &str, profile: &LocalDiscoveryProfile, port: u16) -> (r: DiscoveryAnnouncement)
    ensures
        r.service_type@ == service_type@,
        r.instance_name@ == profile.device_name@,
        r.port == port,
{
    DiscoveryAnnouncement {
        service_type: service_type.to_owned(),
        instance_name: profile.device_name.clone(),
        port,
    }
}

pub open spec fn availability_text(availability: DeviceAvailability) -> Seq<char> {
    match availability {
        DeviceAvailability::Available => "available"@,
        DeviceAvailability::Busy => "busy"@,
        DeviceAvailability::Unavailable => "unavailable"@,
    }
}

/// How an availability is written in the TXT record.
pub fn availability_txt(availability: DeviceAvailability) -> (r: &'static str)
    ensures
        r@ == availability_text(availability),
{
    match availability {
        DeviceAvailability::Available => "available",
        DeviceAvailability::Busy => "busy",
        DeviceAvailability::Unavailable => "unavailable",
    }
}

/// Reads an availability back; anything unknown counts as unavailable.
pub open spec fn availability_of_text(value: Seq<char>) -> DeviceAvailability {
    if value == "available"@ {
        DeviceAvailability::Available
    } else if value == "busy"@ {
        DeviceAvailability::Busy
    } else {
        DeviceAvailability::Unavailable
    }
}

pub fn parse_availability(value: &str) -> (r: DeviceAvailability)
    ensures
        r == availability_of_text(value@),
{
    if str_eq(value, "available") {
        DeviceAvailability::Available
    } else if str_eq(value, "busy") {
        DeviceAvailability::Busy
    } else {
        DeviceAvailability::Unavailable
    }
}

/// The TXT spellings of a set flag.
pub open spec fn flag_text_set(value: Seq<char>) -> bool {
    value == "true"@ || value == "1"@ || value == "yes"@ || value == "on"@
}

/// A TXT flag: set when present and spelled `true`, `1`, `yes` or `on`.
pub fn txt_bool(value: Option<&str>) -> (r: bool)
    ensures
        r == match value {
            Some(v) => flag_text_set(v@),
            None => false,
        },
{
    match value {
        Some(v) => str_eq(v, "true") || str_eq(v, "1") || str_eq(v, "yes") || str_eq(v, "on"),
        None => false,
    }
}

/// The TXT record announced for a profile, as key and value texts.
pub open spec fn txt_record(profile: LocalDiscoveryProfile) -> Seq<(Seq<char>, Seq<char>)> {
    seq![
        ("app"@, "synchrosonic"@),
        ("device_id"@, profile.device_id@),
        ("device_name"@, profile.device_name@),
        ("app_version"@, profile.app_version@),
        ("protocol_version"@, decimal(DISCOVERY_PROTOCOL_VERSION as nat)),
        ("sender"@, bool_text(profile.capabilities.supports_sender)),
        ("receiver"@, bool_text(profile.capabilities.supports_receiver)),
        ("bluetooth"@, bool_text(profile.capabilities.supports_bluetooth_output)),
        ("local_output"@, bool_text(profile.capabilities.supports_local_output)),
        ("availability"@, availability_text(profile.availability)),
    ]
}

pub open spec fn txt_pairs_view(v: Seq<(&'static str, String)>) -> Seq<(Seq<char>, Seq<char>)> {
    v.map_values(|p: (&'static str, String)| (p.0@, p.1@))
}

/// The TXT properties this device announces.
pub fn txt_properties(profile: &LocalDiscoveryProfile) -> (r: Vec<(&'static str, String)>)
    ensures
        txt_pairs_view(r@) == txt_record(*profile),
{
    let mut props: Vec<(&'static str, String)> = Vec::new();
    props.push(("app", "synchrosonic".to_owned()));
    props.push(("device_id", profile.device_id.as_str().to_owned()));
    props.push(("device_name", profile.device_name.clone()));
    props.push(("app_version", profile.app_version.clone()));
    props.push(("protocol_version", decimal_string(DISCOVERY_PROTOCOL_VERSION as u64)));
    props.push(("sender", bool_string(profile.capabilities.supports_sender)));
    props.push(("receiver", bool_string(profile.capabilities.supports_receiver)));
    props.push(("bluetooth", bool_string(profile.capabilities.supports_bluetooth_output)));
    props.push(("local_output", bool_string(profile.capabilities.supports_local_output)));
    props.push(("availability", availability_txt(profile.availability).to_owned()));
    assert(txt_pairs_view(props@) =~= txt_record(*profile));
    props
}

pub open spec fn is_ascii_alphanumeric(c: char) -> bool {
    ('0' <= c && c <= '9') || ('a' <= c && c <= 'z') || ('A' <= c && c <= 'Z')
}

pub open spec fn ascii_lowercase(c: char) -> char {
    if 'A' <= c && c <= 'Z' {
        (((c as u32) + 32) as u8) as char
    } else {
        c
    }
}

/// A character as a DNS label keeps it: ASCII letters and digits, lowered,
/// and `-`; anything else becomes `-`.
pub open spec fn dns_char(c: char) -> char {
    if is_ascii_alphanumeric(c) || c == '-' {
        ascii_lowercase(c)
    } else {
        '-'
    }
}

/// `s` without its leading `-` characters.
pub open spec fn trim_leading_dashes(s: Seq<char>) -> Seq<char>
    decreases s.len(),
{
    if s.len() > 0 && s[0] == '-' {
        trim_leading_dashes(s.drop_first())
    } else {
        s
    }
}

/// `s` without its trailing `-` characters.
pub open spec fn trim_trailing_dashes(s: Seq<char>) -> Seq<char>
    decreases s.len(),
{
    if s.len() > 0 && s.last() == '-' {
        trim_trailing_dashes(s.drop_last())
    } else {
        s
    }
}

pub open spec fn fallback_label() -> Seq<char> {
    "synchrosonic-device"@
}

/// A name turned into a DNS label of at most 63 characters.
pub open spec fn dns_label(name: Seq<char>) -> Seq<char> {
    let trimmed = trim_trailing_dashes(trim_leading_dashes(name.map_values(|c: char| dns_char(c))));
    if trimmed.len() == 0 {
        fallback_label()
    } else if trimmed.len() > 63 {
        trimmed.take(63)
    } else {
        trimmed
    }
}

/// Each ASCII letter or digit of a name stays in its label, lowercased;
/// `-` stays; every other character becomes `-`.
pub proof fn lemma_label_chars_keep_letters_lowered(c: char)
    ensures
        'A' <= c <= 'Z' ==> 'a' <= dns_char(c) <= 'z' && dns_char(c) as u32 == c as u32 + 32,
        ('a' <= c <= 'z') || ('0' <= c <= '9') || c == '-' ==> dns_char(c) == c,
        !(('A' <= c <= 'Z') || ('a' <= c <= 'z') || ('0' <= c <= '9') || c == '-') ==> dns_char(c) == '-',
{
    if 'A' <= c <= 'Z' {
        let x = c as u32;
        assert(65 <= x <= 90);
        assert((((x + 32) as u8) as char) as u32 == x + 32);
    }
}

/// A name of at most 63 characters that begins and ends with an ASCII
/// letter or digit keeps its length as a label, and each of its characters
/// maps as `lemma_label_chars_keep_letters_lowered` says: letters and
/// digits kept (letters lowercased), `-` kept, everything else `-`.
pub proof fn lemma_label_of_clean_name(name: Seq<char>)
    requires
        0 < name.len() <= 63,
        is_ascii_alphanumeric(name[0]),
        is_ascii_alphanumeric(name.last()),
    ensures
        dns_label(name).len() == name.len(),
        forall|i: int| 0 <= i < name.len() ==> {
            let c = #[trigger] name[i];
            let l = dns_label(name)[i];
            &&& ('A' <= c <= 'Z' ==> 'a' <= l <= 'z' && l as u32 == c as u32 + 32)
            &&& (('a' <= c <= 'z') || ('0' <= c <= '9') || c == '-' ==> l == c)
            &&& (!(('A' <= c <= 'Z') || ('a' <= c <= 'z') || ('0' <= c <= '9') || c == '-') ==> l == '-')
        },
{
    let mapped = name.map_values(|c: char| dns_char(c));
    lemma_label_chars_keep_letters_lowered(name[0]);
    lemma_label_chars_keep_letters_lowered(name.last());
    assert(mapped[0] == dns_char(name[0]));
    assert(mapped[0] != '-');
    assert(trim_leading_dashes(mapped) == mapped);
    assert(mapped.last() == dns_char(name.last()));
    assert(mapped.last() != '-');
    assert(trim_trailing_dashes(mapped) == mapped);
    assert forall|i: int| 0 <= i < name.len() implies {
        let c = #[trigger] name[i];
        let l = dns_label(name)[i];
        &&& ('A' <= c <= 'Z' ==> 'a' <= l <= 'z' && l as u32 == c as u32 + 32)
        &&& (('a' <= c <= 'z') || ('0' <= c <= '9') || c == '-' ==> l == c)
        &&& (!(('A' <= c <= 'Z') || ('a' <= c <= 'z') || ('0' <= c <= '9') || c == '-') ==> l == '-')
    } by {
        lemma_label_chars_keep_letters_lowered(name[i]);
        assert(dns_label(name)[i] == mapped[i]);
    }
}

fn label_char(c: char) -> (r: char)
    ensures
        r == dns_char(c),
{
    if ('0' <= c && c <= '9') || ('a' <= c && c <= 'z') || c == '-' {
        c
    } else if 'A' <= c && c <= 'Z' {
        (((c as u32) + 32) as u8) as char
    } else {
        '-'
    }
}

proof fn lemma_trim_leading_prefix(s: Seq<char>, i: int)
    requires
        0 <= i <= s.len(),
        forall|j: int| 0 <= j < i ==> s[j] == '-',
    ensures
        trim_leading_dashes(s) == trim_leading_dashes(s.skip(i)),
    decreases i,
{
    if i > 0 {
        assert(s.drop_first().skip(i - 1) =~= s.skip(i));
        lemma_trim_leading_prefix(s.drop_first(), i - 1);
    } else {
        assert(s.skip(0) =~= s);
    }
}

proof fn lemma_trim_trailing_suffix(s: Seq<char>, k: int)
    requires
        0 <= k <= s.len(),
        forall|j: int| k <= j < s.len() ==> s[j] == '-',
    ensures
        trim_trailing_dashes(s) == trim_trailing_dashes(s.take(k)),
    decreases s.len() - k,
{
    if k < s.len() {
        assert(s.drop_last().take(k) =~= s.take(k));
        lemma_trim_trailing_suffix(s.drop_last(), k);
    } else {
        assert(s.take(k) =~= s);
    }
}

/// A name made fit for a DNS label: ASCII letters and digits lowered, other
/// characters replaced by `-`, leading and trailing `-` trimmed, at most 63
/// characters, and a fixed label when nothing is left.
pub fn sanitized_dns_label(value: &str) -> (r: String)
    ensures
        r@ == dns_label(value@),
{
    let ghost mapped = value@.map_values(|c: char| dns_char(c));
    let n = value.unicode_len();
    let mut start: usize = 0;
    while start < n && label_char(value.get_char(start)) == '-'
        invariant
            n == value@.len(),
            start <= n,
            mapped == value@.map_values(|c: char| dns_char(c)),
            forall|j: int| 0 <= j < start ==> mapped[j] == '-',
        decreases n - start,
    {
        start = start + 1;
    }
    proof {
        lemma_trim_leading_prefix(mapped, start as int);
        if start < n {
            assert(mapped.skip(start as int)[0] == mapped[start as int]);
        }
    }
    let mut end: usize = n;
    while end > start && label_char(value.get_char(end - 1)) == '-'
        invariant
            n == value@.len(),
            start <= end <= n,
            mapped == value@.map_values(|c: char| dns_char(c)),
            forall|j: int| end <= j < n ==> mapped[j] == '-',
        decreases end,
    {
        end = end - 1;
    }
    let ghost lead = mapped.skip(start as int);
    proof {
        lemma_trim_trailing_suffix(lead, end - start);
        assert(lead.take(end - start) =~= mapped.subrange(start as int, end as int));
        let t = mapped.subrange(start as int, end as int);
        if t.len() > 0 {
            assert(t.last() == mapped[end - 1]);
            assert(t[0] == mapped[start as int]);
        } else {
            assert(trim_leading_dashes(t) =~= t);
        }
        if t.len() > 0 {
            assert(trim_leading_dashes(t) == t);
        }
    }
    if start == end {
        return "synchrosonic-device".to_owned();
    }
    let stop: usize = if end - start > 63 { start + 63 } else { end };
    let mut label = String::new();
    let mut i: usize = start;
    while i < stop
        invariant
            n == value@.len(),
            start <= i <= stop <= end <= n,
            mapped == value@.map_values(|c: char| dns_char(c)),
            label@ == mapped.subrange(start as int, i as int),
        decreases stop - i,
    {
        let c = label_char(value.get_char(i));
        push_char(&mut label, c);
        assert(label@ =~= mapped.subrange(start as int, i + 1));
        i = i + 1;
    }
    assert(end - start > 63 ==> mapped.subrange(start as int, end as int).take(63) =~= mapped.subrange(
        start as int,
        stop as int,
    ));
    label
}

/// The host name announced for a device name.
pub fn service_hostname(device_name: &str) -> (r: String)
    ensures
        r@ == dns_label(device_name@) + ".local."@,
{
    let mut host = sanitized_dns_label(device_name);
    append_str(&mut host, ".local.");
    host
}

/// The identifier a device derives from its host and announced names.
pub fn deterministic_device_id(name: &str, hostname: &str) -> (r: String)
    ensures
        r@ == "synchrosonic-"@ + hostname@ + "-"@ + dns_label(name@),
{
    let mut id = "synchrosonic-".to_owned();
    append_str(&mut id, hostname);
    append_str(&mut id, "-");
    let label = sanitized_dns_label(name);
    append_str(&mut id, label.as_str());
    id
}


/// What the network layer read from a resolved announcement: the service's
/// full name, the value of each TXT key this protocol uses, the addresses and
/// the port.
#[derive(Debug, Clone, PartialEq, Eq)]
pub struct ResolvedServiceRecord {
    pub fullname: String,
    pub device_id: Option<String>,
    pub device_name: Option<String>,
    pub protocol_version: Option<String>,
    pub app_version: Option<String>,
    pub availability: Option<String>,
    pub sender: Option<String>,
    pub receiver: Option<String>,
    pub local_output: Option<String>,
    pub bluetooth: Option<String>,
    pub addresses: Vec<IpAddress>,
    pub port: u16,
}

pub open spec fn nonempty_or(value: Option<Seq<char>>, fallback: Seq<char>) -> Seq<char> {
    match value {
        Some(v) => if v.len() > 0 {
            v
        } else {
            fallback
        },
        None => fallback,
    }
}

pub open spec fn flag_of(value: Option<Seq<char>>) -> bool {
    match value {
        Some(v) => flag_text_set(v),
        None => false,
    }
}

pub open spec fn protocol_version_of(value: Option<Seq<char>>) -> u16 {
    match value {
        Some(v) => match parse_u16_spec(v) {
            Some(n) => n,
            None => 0,
        },
        None => 0,
    }
}

pub open spec fn text_or(value: Option<Seq<char>>, fallback: Seq<char>) -> Seq<char> {
    match value {
        Some(v) => v,
        None => fallback,
    }
}

/// The endpoint at the preferred address of a device, if it has one.
pub open spec fn endpoint_for(id: Seq<char>, addresses: Seq<IpAddress>, port: u16) -> Option<TransportEndpointView> {
    match preferred_address(addresses) {
        Some(a) => Some(TransportEndpointView { device_id: id, address: SocketAddress { ip: a, port } }),
        None => None,
    }
}

/// The device a resolved announcement describes, seen at `now`.
pub open spec fn device_from_record(record: ResolvedServiceRecord, now: u64) -> DiscoveredDeviceView {
    let id = nonempty_or(opt_string_view(record.device_id), record.fullname@);
    DiscoveredDeviceView {
        id,
        display_name: nonempty_or(opt_string_view(record.device_name), record.fullname@),
        app_version: text_or(opt_string_view(record.app_version), "unknown"@),
        protocol_version: protocol_version_of(opt_string_view(record.protocol_version)),
        capabilities: DeviceCapabilities {
            supports_sender: flag_of(opt_string_view(record.sender)),
            supports_receiver: flag_of(opt_string_view(record.receiver)),
            supports_local_output: flag_of(opt_string_view(record.local_output)),
            supports_bluetooth_output: flag_of(opt_string_view(record.bluetooth)),
        },
        availability: availability_of_text(text_or(opt_string_view(record.availability), "available"@)),
        status: DeviceStatus::Discovered,
        endpoint: endpoint_for(id, record.addresses@, record.port),
        service_fullname: record.fullname@,
        last_seen_unix_ms: now,
    }
}

fn nonempty_or_clone(value: &Option<String>, fallback: &String) -> (r: String)
    ensures
        r@ == nonempty_or(opt_string_view(*value), fallback@),
{
    match value {
        Some(v) => if v.as_str().unicode_len() > 0 {
            v.clone()
        } else {
            fallback.clone()
        },
        None => fallback.clone(),
    }
}

fn opt_flag(value: &Option<String>) -> (r: bool)
    ensures
        r == flag_of(opt_string_view(*value)),
{
    match value {
        Some(v) => txt_bool(Some(v.as_str())),
        None => false,
    }
}

/// The endpoint a sender should dial for a device with these addresses.
pub fn select_preferred_endpoint(device_id: &DeviceId, addresses: &[IpAddress], port: u16) -> (r:
    Option<TransportEndpoint>)
    ensures
        opt_endpoint_view(r) == endpoint_for(device_id@, addresses@, port),
{
    match select_preferred_ip_address(addresses) {
        Some(address) => Some(
            TransportEndpoint {
                device_id: device_id.clone(),
                address: SocketAddress { ip: address, port },
            },
        ),
        None => None,
    }
}

/// The device a resolved announcement describes, seen at `now_unix_ms`.
pub fn discovered_device_from_record(record: &ResolvedServiceRecord, now_unix_ms: u64) -> (r:
    DiscoveredDevice)
    ensures
        r@ == device_from_record(*record, now_unix_ms),
{
    let id = DeviceId(nonempty_or_clone(&record.device_id, &record.fullname));
    let display_name = nonempty_or_clone(&record.device_name, &record.fullname);
    let protocol_version = match &record.protocol_version {
        Some(v) => match parse_u16(v.as_str()) {
            Some(n) => n,
            None => 0,
        },
        None => 0,
    };
    let app_version = match &record.app_version {
        Some(v) => v.clone(),
        None => "unknown".to_owned(),
    };
    let availability = match &record.availability {
        Some(v) => parse_availability(v.as_str()),
        None => parse_availability("available"),
    };
    let endpoint = select_preferred_endpoint(&id, record.addresses.as_slice(), record.port);
    DiscoveredDevice {
        id,
        display_name,
        app_version,
        protocol_version,
        capabilities: DeviceCapabilities {
            supports_sender: opt_flag(&record.sender),
            supports_receiver: opt_flag(&record.receiver),
            supports_local_output: opt_flag(&record.local_output),
            supports_bluetooth_output: opt_flag(&record.bluetooth),
        },
        availability,
        status: DeviceStatus::Discovered,
        endpoint,
        service_fullname: record.fullname.clone(),
        last_seen_unix_ms: now_unix_ms,
    }
}

/// The endpoint kept when a device is announced again: the new one only
/// when its address outranks the known one.
pub open spec fn preferred_endpoint_view(
    existing: Option<TransportEndpointView>,
    incoming: Option<TransportEndpointView>,
) -> Option<TransportEndpointView> {
    match existing {
        Some(e) => match incoming {
            Some(i) => if rank_key(i.address.ip) > rank_key(e.address.ip) {
                incoming
            } else {
                existing
            },
            None => existing,
        },
        None => incoming,
    }
}

pub fn preferred_endpoint(existing: Option<&TransportEndpoint>, incoming: Option<&TransportEndpoint>) -> (r:
    Option<TransportEndpoint>)
    ensures
        opt_endpoint_view(r) == preferred_endpoint_view(
            match existing {
                Some(e) => Some(e@),
                None => None,
            },
            match incoming {
                Some(i) => Some(i@),
                None => None,
            },
        ),
{
    match (existing, incoming) {
        (Some(e), Some(i)) => {
            let ri = endpoint_rank(i.address.ip);
            let re = endpoint_rank(e.address.ip);
            if ri.0 > re.0 || (ri.0 == re.0 && ri.1 > re.1) {
                Some(i.clone())
            } else {
                Some(e.clone())
            }
        },
        (Some(e), None) => Some(e.clone()),
        (None, Some(i)) => Some(i.clone()),
        (None, None) => None,
    }
}

/// An incoming announcement of a known device, keeping the better endpoint.
pub open spec fn merged_device(existing: DiscoveredDeviceView, incoming: DiscoveredDeviceView) -> DiscoveredDeviceView {
    DiscoveredDeviceView {
        endpoint: preferred_endpoint_view(existing.endpoint, incoming.endpoint),
        ..incoming
    }
}

pub fn merge_discovered_device(existing: &DiscoveredDevice, incoming: DiscoveredDevice) -> (r:
    DiscoveredDevice)
    ensures
        r@ == merged_device(existing@, incoming@),
{
    let mut incoming = incoming;
    let endpoint = {
        let existing_endpoint = match &existing.endpoint {
            Some(e) => Some(e),
            None => None,
        };
        let incoming_endpoint = match &incoming.endpoint {
            Some(e) => Some(e),
            None => None,
        };
        preferred_endpoint(existing_endpoint, incoming_endpoint)
    };
    incoming.endpoint = endpoint;
    incoming
}

/// Two descriptions of a device that differ at most in when it was seen.
pub open spec fn materially_same(a: DiscoveredDeviceView, b: DiscoveredDeviceView) -> bool {
    DiscoveredDeviceView { last_seen_unix_ms: 0, ..a } == DiscoveredDeviceView { last_seen_unix_ms: 0, ..b }
}

fn same_endpoint(a: &Option<TransportEndpoint>, b: &Option<TransportEndpoint>) -> (r: bool)
    ensures
        r == (opt_endpoint_view(*a) == opt_endpoint_view(*b)),
{
    match (a, b) {
        (Some(x), Some(y)) => x.device_id.same_as(&y.device_id) && same_socket_address(
            &x.address,
            &y.address,
        ),
        (None, None) => true,
        _ => false,
    }
}

pub fn materially_same_discovered_device(existing: &DiscoveredDevice, incoming: &DiscoveredDevice) -> (r:
    bool)
    ensures
        r == materially_same(existing@, incoming@),
{
    existing.id.same_as(&incoming.id) && existing.display_name == incoming.display_name
        && existing.app_version == incoming.app_version && existing.protocol_version
        == incoming.protocol_version && existing.capabilities == incoming.capabilities
        && existing.availability == incoming.availability && existing.status == incoming.status
        && same_endpoint(&existing.endpoint, &incoming.endpoint) && existing.service_fullname
        == incoming.service_fullname
}


/// A device the registry knows, with when it was last announced.
#[derive(Debug)]
pub struct RegistryEntry {
    pub device: DiscoveredDevice,
    pub last_seen_ms: u64,
    pub marked_stale: bool,
}

pub struct RegistryEntryView {
    pub device: DiscoveredDeviceView,
    pub last_seen_ms: u64,
    pub marked_stale: bool,
}

impl View for RegistryEntry {
    type V = RegistryEntryView;

    open spec fn view(&self) -> RegistryEntryView {
        RegistryEntryView { device: self.device@, last_seen_ms: self.last_seen_ms, marked_stale: self.marked_stale }
    }
}

pub open spec fn entry_with_id(id: Seq<char>) -> spec_fn(RegistryEntryView) -> bool {
    |e: RegistryEntryView| e.device.id == id
}

pub open spec fn entry_with_fullname(fullname: Seq<char>) -> spec_fn(RegistryEntryView) -> bool {
    |e: RegistryEntryView| e.device.service_fullname == fullname
}

/// No two entries describe the same device.
pub open spec fn entry_ids_unique(s: Seq<RegistryEntryView>) -> bool {
    forall|i: int, j: int| 0 <= i < j < s.len() ==> #[trigger] s[i].device.id != #[trigger] s[j].device.id
}

/// An announcement as the registry stores it: freshly discovered, stamped
/// with the wall-clock time `seen_unix_ms`.
pub open spec fn announced(device: DiscoveredDeviceView, seen_unix_ms: u64) -> DiscoveredDeviceView {
    DiscoveredDeviceView { status: DeviceStatus::Discovered, last_seen_unix_ms: seen_unix_ms, ..device }
}

/// The entries and the event after `device` is announced, stamped
/// `seen_unix_ms` by the wall clock and at `now` by the monotonic clock
/// that staleness is measured on: a new device is appended and reported as
/// discovered; a known one is replaced, keeping the better endpoint, and
/// reported only if something besides the time changed.
pub open spec fn registry_upsert(
    entries: Seq<RegistryEntryView>,
    device: DiscoveredDeviceView,
    seen_unix_ms: u64,
    now: u64,
) -> (Seq<RegistryEntryView>, Option<DiscoveryEventView>) {
    let incoming = announced(device, seen_unix_ms);
    if any_index(entries, entry_with_id(device.id)) {
        let k = first_index(entries, entry_with_id(device.id));
        let merged = merged_device(entries[k].device, incoming);
        (
            entries.update(k, RegistryEntryView { device: merged, last_seen_ms: now, marked_stale: false }),
            if materially_same(entries[k].device, merged) {
                None
            } else {
                Some(DiscoveryEventView::DeviceUpdated(merged))
            },
        )
    } else {
        (
            entries.push(RegistryEntryView { device: incoming, last_seen_ms: now, marked_stale: false }),
            Some(DiscoveryEventView::DeviceDiscovered(incoming)),
        )
    }
}

/// The entries and the event after the service `fullname` went away: the
/// first entry announced under that name is dropped and reported.
pub open spec fn registry_remove(entries: Seq<RegistryEntryView>, fullname: Seq<char>) -> (
    Seq<RegistryEntryView>,
    Option<DiscoveryEventView>,
) {
    if any_index(entries, entry_with_fullname(fullname)) {
        let k = first_index(entries, entry_with_fullname(fullname));
        (
            entries.remove(k),
            Some(DiscoveryEventView::DeviceRemoved { device_id: entries[k].device.id, service_fullname: fullname }),
        )
    } else {
        (entries, None)
    }
}

/// An entry that has gone unannounced for the timeout and is not yet marked.
pub open spec fn is_due(e: RegistryEntryView, now: u64, timeout: u64) -> bool {
    !e.marked_stale && (if now >= e.last_seen_ms { now - e.last_seen_ms } else { 0 }) >= timeout
}

/// An entry marked stale: its device unavailable.
pub open spec fn expired_entry(e: RegistryEntryView) -> RegistryEntryView {
    RegistryEntryView {
        device: DiscoveredDeviceView {
            status: DeviceStatus::Unavailable,
            availability: DeviceAvailability::Unavailable,
            ..e.device
        },
        marked_stale: true,
        ..e
    }
}

pub open spec fn pruned_entry(now: u64, timeout: u64) -> spec_fn(RegistryEntryView) -> RegistryEntryView {
    |e: RegistryEntryView| if is_due(e, now, timeout) { expired_entry(e) } else { e }
}

/// The events a prune at `now` raises, in entry order.
pub open spec fn expiry_events(s: Seq<RegistryEntryView>, now: u64, timeout: u64) -> Seq<DiscoveryEventView>
    decreases s.len(),
{
    if s.len() == 0 {
        Seq::empty()
    } else {
        let rest = expiry_events(s.drop_last(), now, timeout);
        if is_due(s.last(), now, timeout) {
            rest.push(DiscoveryEventView::DeviceExpired(expired_entry(s.last()).device))
        } else {
            rest
        }
    }
}

/// A device whose name sorts after `name`.
pub open spec fn named_after(name: Seq<char>) -> spec_fn(DiscoveredDeviceView) -> bool {
    |d: DiscoveredDeviceView| seq_lt(name, d.display_name)
}

/// `d` placed before the first device whose name sorts after its own.
pub open spec fn insert_by_name(s: Seq<DiscoveredDeviceView>, d: DiscoveredDeviceView) -> Seq<DiscoveredDeviceView> {
    if any_index(s, named_after(d.display_name)) {
        s.insert(first_index(s, named_after(d.display_name)), d)
    } else {
        s.push(d)
    }
}

/// Devices ordered by name, those of equal names in the order given.
pub open spec fn sorted_by_name(s: Seq<DiscoveredDeviceView>) -> Seq<DiscoveredDeviceView>
    decreases s.len(),
{
    if s.len() == 0 {
        s
    } else {
        insert_by_name(sorted_by_name(s.drop_last()), s.last())
    }
}

pub open spec fn entry_devices(s: Seq<RegistryEntryView>) -> Seq<DiscoveredDeviceView> {
    s.map_values(|e: RegistryEntryView| e.device)
}

/// The devices seen on the network, one entry per device identifier.
/// Staleness is measured in milliseconds of the monotonic clock since
/// `origin`.
#[derive(Debug)]
pub struct DeviceRegistry {
    entries: Vec<RegistryEntry>,
    stale_timeout_ms: u64,
    origin: std::time::Instant,
}

impl DeviceRegistry {
    pub closed spec fn entries(&self) -> Seq<RegistryEntryView> {
        self.entries@.map_values(|e: RegistryEntry| e@)
    }

    pub closed spec fn stale_timeout(&self) -> u64 {
        self.stale_timeout_ms
    }

    pub open spec fn wf(&self) -> bool {
        entry_ids_unique(self.entries())
    }

    /// An empty registry whose entries go stale after `stale_timeout_ms`.
    pub fn new(stale_timeout_ms: u64) -> (r: Self)
        ensures
            r.wf(),
            r.entries() == Seq::<RegistryEntryView>::empty(),
            r.stale_timeout() == stale_timeout_ms,
    {
        let r = DeviceRegistry { entries: Vec::new(), stale_timeout_ms, origin: instant_now() };
        assert(r.entries() =~= Seq::<RegistryEntryView>::empty());
        r
    }

    fn position_of_id(&self, id: &DeviceId) -> (r: Option<usize>)
        ensures
            match r {
                Some(i) => is_first_index(self.entries(), entry_with_id(id@), i as int),
                None => !any_index(self.entries(), entry_with_id(id@)),
            },
    {
        let ghost views = self.entries();
        let mut i: usize = 0;
        while i < self.entries.len()
            invariant
                i <= self.entries@.len(),
                views == self.entries(),
                forall|j: int| 0 <= j < i ==> !entry_with_id(id@)(#[trigger] views[j]),
            decreases self.entries@.len() - i,
        {
            assert(views[i as int] == self.entries@[i as int]@);
            if self.entries[i].device.id.same_as(id) {
                return Some(i);
            }
            i = i + 1;
        }
        None
    }

    /// Records an announcement stamped `seen_unix_ms` by the wall clock and
    /// seen at `now_ms` by the monotonic clock.
    pub fn upsert_at(&mut self, device: DiscoveredDevice, seen_unix_ms: u64, now_ms: u64) -> (r: Option<
        DiscoveryEvent,
    >)
        requires
            old(self).wf(),
        ensures
            final(self).wf(),
            final(self).stale_timeout() == old(self).stale_timeout(),
            (final(self).entries(), opt_event_view(r)) == registry_upsert(
                old(self).entries(),
                device@,
                seen_unix_ms,
                now_ms,
            ),
    {
        let ghost old_entries = self.entries();
        let ghost incoming = device@;
        let mut device = device;
        device.status = DeviceStatus::Discovered;
        device.last_seen_unix_ms = seen_unix_ms;
        assert(device@ == announced(incoming, seen_unix_ms));
        match self.position_of_id(&device.id) {
            Some(k) => {
                proof { lemma_first_index_is(old_entries, entry_with_id(incoming.id), k as int); }
                assert(old_entries[k as int] == self.entries@[k as int]@);
                let merged = merge_discovered_device(&self.entries[k].device, device);
                let changed = !materially_same_discovered_device(&self.entries[k].device, &merged);
                let event = if changed {
                    Some(DiscoveryEvent::DeviceUpdated(merged.clone()))
                } else {
                    None
                };
                let ghost merged_view = merged@;
                self.entries[k] = RegistryEntry { device: merged, last_seen_ms: now_ms, marked_stale: false };
                assert(self.entries() =~= old_entries.update(
                    k as int,
                    RegistryEntryView { device: merged_view, last_seen_ms: now_ms, marked_stale: false },
                ));
                assert(entry_ids_unique(self.entries())) by {
                    assert forall|i: int, j: int| 0 <= i < j < self.entries().len() implies #[trigger] self.entries()[i].device.id
                        != #[trigger] self.entries()[j].device.id by {
                        assert(self.entries()[i].device.id == old_entries[i].device.id);
                        assert(self.entries()[j].device.id == old_entries[j].device.id);
                    }
                }
                event
            },
            None => {
                let event = DiscoveryEvent::DeviceDiscovered(device.clone());
                let ghost device_view = device@;
                self.entries.push(RegistryEntry { device, last_seen_ms: now_ms, marked_stale: false });
                assert(self.entries() =~= old_entries.push(
                    RegistryEntryView { device: device_view, last_seen_ms: now_ms, marked_stale: false },
                ));
                assert(entry_ids_unique(self.entries())) by {
                    assert forall|i: int, j: int| 0 <= i < j < self.entries().len() implies #[trigger] self.entries()[i].device.id
                        != #[trigger] self.entries()[j].device.id by {
                        if j == old_entries.len() {
                            assert(!entry_with_id(incoming.id)(old_entries[i]));
                        } else {
                            assert(self.entries()[i] == old_entries[i]);
                            assert(self.entries()[j] == old_entries[j]);
                        }
                    }
                }
                Some(event)
            },
        }
    }

    /// Records an announcement seen now: stamped by the wall clock, its
    /// staleness measured on the monotonic clock.
    pub fn upsert(&mut self, device: DiscoveredDevice) -> (r: Option<DiscoveryEvent>)
        requires
            old(self).wf(),
        ensures
            final(self).wf(),
            final(self).stale_timeout() == old(self).stale_timeout(),
            exists|seen: u64, now: u64| (final(self).entries(), opt_event_view(r)) == #[trigger] registry_upsert(
                old(self).entries(),
                device@,
                seen,
                now,
            ),
    {
        let seen = current_unix_ms();
        let now = monotonic_ms(&self.origin);
        self.upsert_at(device, seen, now)
    }

    fn position_of_fullname(&self, fullname: &str) -> (r: Option<usize>)
        ensures
            match r {
                Some(i) => is_first_index(self.entries(), entry_with_fullname(fullname@), i as int),
                None => !any_index(self.entries(), entry_with_fullname(fullname@)),
            },
    {
        let ghost views = self.entries();
        let mut i: usize = 0;
        while i < self.entries.len()
            invariant
                i <= self.entries@.len(),
                views == self.entries(),
                forall|j: int| 0 <= j < i ==> !entry_with_fullname(fullname@)(#[trigger] views[j]),
            decreases self.entries@.len() - i,
        {
            assert(views[i as int] == self.entries@[i as int]@);
            if str_eq(self.entries[i].device.service_fullname.as_str(), fullname) {
                return Some(i);
            }
            i = i + 1;
        }
        None
    }

    /// Forgets the device announced under a service name that went away.
    pub fn mark_removed_by_fullname(&mut self, fullname: &str) -> (r: Option<DiscoveryEvent>)
        requires
            old(self).wf(),
        ensures
            final(self).wf(),
            final(self).stale_timeout() == old(self).stale_timeout(),
            (final(self).entries(), opt_event_view(r)) == registry_remove(old(self).entries(), fullname@),
    {
        let ghost old_entries = self.entries();
        match self.position_of_fullname(fullname) {
            Some(k) => {
                proof { lemma_first_index_is(old_entries, entry_with_fullname(fullname@), k as int); }
                let removed = self.entries.remove(k);
                assert(self.entries() =~= old_entries.remove(k as int));
                assert(entry_ids_unique(self.entries())) by {
                    assert forall|i: int, j: int| 0 <= i < j < self.entries().len() implies #[trigger] self.entries()[i].device.id
                        != #[trigger] self.entries()[j].device.id by {
                        let oi = if i < k { i } else { i + 1 };
                        let oj = if j < k { j } else { j + 1 };
                        assert(self.entries()[i] == old_entries[oi]);
                        assert(self.entries()[j] == old_entries[oj]);
                    }
                }
                Some(DiscoveryEvent::DeviceRemoved {
                    device_id: removed.device.id,
                    service_fullname: fullname.to_owned(),
                })
            },
            None => None,
        }
    }

    /// Marks every entry unannounced for the timeout as of `now_ms` stale,
    /// its device unavailable, and reports each once.
    pub fn prune_stale_at(&mut self, now_ms: u64) -> (r: Vec<DiscoveryEvent>)
        requires
            old(self).wf(),
        ensures
            final(self).wf(),
            final(self).stale_timeout() == old(self).stale_timeout(),
            final(self).entries() == old(self).entries().map_values(
                pruned_entry(now_ms, old(self).stale_timeout()),
            ),
            r@.map_values(|e: DiscoveryEvent| e@) == expiry_events(
                old(self).entries(),
                now_ms,
                old(self).stale_timeout(),
            ),
    {
        let ghost old_entries = self.entries();
        let timeout = self.stale_timeout_ms;
        let mut events: Vec<DiscoveryEvent> = Vec::new();
        let mut i: usize = 0;
        while i < self.entries.len()
            invariant
                self.entries@.len() == old_entries.len(),
                i <= old_entries.len(),
                timeout == self.stale_timeout_ms,
                forall|j: int| 0 <= j < i ==> #[trigger] self.entries()[j] == pruned_entry(now_ms, timeout)(old_entries[j]),
                forall|j: int| i <= j < old_entries.len() ==> #[trigger] self.entries()[j] == old_entries[j],
                events@.map_values(|e: DiscoveryEvent| e@) == expiry_events(old_entries.subrange(0, i as int), now_ms, timeout),
            decreases old_entries.len() - i,
        {
            let ghost before = self.entries();
            assert(self.entries()[i as int] == self.entries@[i as int]@);
            let last_seen = self.entries[i].last_seen_ms;
            let elapsed = if now_ms >= last_seen { now_ms - last_seen } else { 0 };
            proof {
                assert(old_entries.subrange(0, i + 1).drop_last() =~= old_entries.subrange(0, i as int));
            }
            if !self.entries[i].marked_stale && elapsed >= timeout {
                self.entries[i].device.status = DeviceStatus::Unavailable;
                self.entries[i].device.availability = DeviceAvailability::Unavailable;
                self.entries[i].marked_stale = true;
                let ghost ev_before = events@;
                events.push(DiscoveryEvent::DeviceExpired(self.entries[i].device.clone()));
                assert(events@.map_values(|e: DiscoveryEvent| e@) =~= ev_before.map_values(
                    |e: DiscoveryEvent| e@,
                ).push(DiscoveryEventView::DeviceExpired(expired_entry(old_entries[i as int]).device)));
            }
            assert forall|j: int| 0 <= j < old_entries.len() && j != i implies #[trigger] self.entries()[j]
                == before[j] by {
                assert(self.entries()[j] == self.entries@[j]@);
            }
            assert(self.entries()[i as int] == self.entries@[i as int]@);
            i = i + 1;
        }
        assert(self.entries() =~= old_entries.map_values(pruned_entry(now_ms, timeout)));
        assert(old_entries.subrange(0, old_entries.len() as int) =~= old_entries);
        assert(entry_ids_unique(self.entries())) by {
            assert forall|i: int, j: int| 0 <= i < j < self.entries().len() implies #[trigger] self.entries()[i].device.id
                != #[trigger] self.entries()[j].device.id by {
                assert(self.entries()[i].device.id == old_entries[i].device.id);
                assert(self.entries()[j].device.id == old_entries[j].device.id);
            }
        }
        events
    }

    /// Prunes as of now, by the monotonic clock.
    pub fn prune_stale(&mut self) -> (r: Vec<DiscoveryEvent>)
        requires
            old(self).wf(),
        ensures
            final(self).wf(),
            final(self).stale_timeout() == old(self).stale_timeout(),
            exists|now: u64|
                final(self).entries() == old(self).entries().map_values(
                    #[trigger] pruned_entry(now, old(self).stale_timeout()),
                ) && r@.map_values(|e: DiscoveryEvent| e@) == expiry_events(
                    old(self).entries(),
                    now,
                    old(self).stale_timeout(),
                ),
    {
        let now = monotonic_ms(&self.origin);
        self.prune_stale_at(now)
    }

    /// The known devices ordered by name, stamped `now_ms`.
    pub fn snapshot_at(&self, now_ms: u64) -> (r: DiscoverySnapshot)
        ensures
            device_views(r.devices@) == sorted_by_name(entry_devices(self.entries())),
            r.updated_at_unix_ms == now_ms,
    {
        let ghost all = entry_devices(self.entries());
        let mut devices: Vec<DiscoveredDevice> = Vec::new();
        let mut i: usize = 0;
        while i < self.entries.len()
            invariant
                i <= self.entries@.len(),
                all == entry_devices(self.entries()),
                device_views(devices@) == sorted_by_name(all.subrange(0, i as int)),
            decreases self.entries@.len() - i,
        {
            let device = &self.entries[i].device;
            assert(all[i as int] == device@);
            let ghost sorted = device_views(devices@);
            let mut pos: usize = 0;
            while pos < devices.len() && !str_lt(device.display_name.as_str(), devices[pos].display_name.as_str())
                invariant
                    pos <= devices@.len(),
                    sorted == device_views(devices@),
                    forall|j: int| 0 <= j < pos ==> !named_after(device@.display_name)(#[trigger] sorted[j]),
                decreases devices@.len() - pos,
            {
                assert(sorted[pos as int] == devices@[pos as int]@);
                pos = pos + 1;
            }
            proof {
                assert(all.subrange(0, i + 1).drop_last() =~= all.subrange(0, i as int));
                if pos < devices@.len() {
                    assert(sorted[pos as int] == devices@[pos as int]@);
                    lemma_first_index_is(sorted, named_after(device@.display_name), pos as int);
                } else {
                    lemma_no_index(sorted, named_after(device@.display_name));
                }
            }
            devices.insert(pos, device.clone());
            assert(device_views(devices@) =~= sorted.insert(pos as int, all[i as int]));
            i = i + 1;
        }
        assert(all.subrange(0, all.len() as int) =~= all);
        DiscoverySnapshot { devices, updated_at_unix_ms: now_ms }
    }

    /// The known devices ordered by name, stamped now by the system clock.
    pub fn snapshot(&self) -> (r: DiscoverySnapshot)
        ensures
            device_views(r.devices@) == sorted_by_name(entry_devices(self.entries())),
    {
        self.snapshot_at(current_unix_ms())
    }
}


/// Merging announcements never trades a known endpoint for a worse one: the
/// kept endpoint ranks at least as high as each one offered, and there is
/// one whenever either side had one.
pub proof fn lemma_merge_keeps_best_endpoint(
    existing: Option<TransportEndpointView>,
    incoming: Option<TransportEndpointView>,
)
    ensures
        existing is Some ==> preferred_endpoint_view(existing, incoming) is Some && rank_key(
            preferred_endpoint_view(existing, incoming)->0.address.ip,
        ) >= rank_key(existing->0.address.ip),
        incoming is Some ==> preferred_endpoint_view(existing, incoming) is Some && rank_key(
            preferred_endpoint_view(existing, incoming)->0.address.ip,
        ) >= rank_key(incoming->0.address.ip),
        existing is None && incoming is None ==> preferred_endpoint_view(existing, incoming) is None,
{
}

/// Offering the same endpoint again changes nothing.
proof fn lemma_preferred_endpoint_settles(
    existing: Option<TransportEndpointView>,
    incoming: Option<TransportEndpointView>,
)
    ensures
        preferred_endpoint_view(preferred_endpoint_view(existing, incoming), incoming)
            == preferred_endpoint_view(existing, incoming),
{
}

/// Announcing a device the registry already holds, with nothing new in the
/// announcement, raises no event: a repeated announcement is silent.
pub proof fn lemma_reannouncement_is_silent(
    entries: Seq<RegistryEntryView>,
    device: DiscoveredDeviceView,
    first_seen: u64,
    first_at: u64,
    seen_again: u64,
    again_at: u64,
)
    ensures
        registry_upsert(registry_upsert(entries, device, first_seen, first_at).0, device, seen_again, again_at).1
            is None,
{
    let id = device.id;
    let after = registry_upsert(entries, device, first_seen, first_at).0;
    let incoming = announced(device, first_seen);
    let k: int = if any_index(entries, entry_with_id(id)) {
        lemma_first_exists(entries, entry_with_id(id));
        first_index(entries, entry_with_id(id))
    } else {
        entries.len() as int
    };
    if !any_index(entries, entry_with_id(id)) {
        assert forall|j: int| 0 <= j < k implies !entry_with_id(id)(#[trigger] after[j]) by {
            assert(after[j] == entries[j]);
            if entry_with_id(id)(entries[j]) {
                assert(any_index(entries, entry_with_id(id)));
            }
        }
    } else {
        assert forall|j: int| 0 <= j < k implies !entry_with_id(id)(#[trigger] after[j]) by {
            assert(after[j] == entries[j]);
        }
    }
    assert(entry_with_id(id)(after[k]));
    lemma_first_index_is(after, entry_with_id(id), k);
    let kept = after[k].device;
    lemma_preferred_endpoint_settles(
        if any_index(entries, entry_with_id(id)) { entries[k].device.endpoint } else { None },
        incoming.endpoint,
    );
    let again = merged_device(kept, announced(device, seen_again));
    assert(materially_same(kept, again));
}

/// Entries a prune left alone are not due at the same instant, and entries
/// it marked are never due again.
proof fn lemma_pruned_not_due(e: RegistryEntryView, now: u64, timeout: u64)
    ensures
        !is_due(pruned_entry(now, timeout)(e), now, timeout),
{
}

/// Pruning twice at the same instant reports nothing the second time: each
/// stale device is reported once.
pub proof fn lemma_prune_reports_once(entries: Seq<RegistryEntryView>, now: u64, timeout: u64)
    ensures
        expiry_events(entries.map_values(pruned_entry(now, timeout)), now, timeout) == Seq::<
            DiscoveryEventView,
        >::empty(),
    decreases entries.len(),
{
    let pruned = entries.map_values(pruned_entry(now, timeout));
    if entries.len() > 0 {
        lemma_prune_reports_once(entries.drop_last(), now, timeout);
        assert(pruned.drop_last() =~= entries.drop_last().map_values(pruned_entry(now, timeout)));
        lemma_pruned_not_due(entries.last(), now, timeout);
        assert(pruned.last() == pruned_entry(now, timeout)(entries.last()));
    } else {
        assert(pruned.len() == 0);
    }
}


/// No device sorts before one listed ahead of it.
pub open spec fn name_ordered(s: Seq<DiscoveredDeviceView>) -> bool {
    forall|i: int, j: int|
        0 <= i < j < s.len() ==> !seq_lt(#[trigger] s[j].display_name, #[trigger] s[i].display_name)
}

proof fn lemma_insert_by_name_ordered(s: Seq<DiscoveredDeviceView>, d: DiscoveredDeviceView)
    requires
        name_ordered(s),
    ensures
        name_ordered(insert_by_name(s, d)),
        insert_by_name(s, d).to_multiset() == s.to_multiset().insert(d),
{
    broadcast use vstd::seq_lib::group_to_multiset_ensures;

    let t = insert_by_name(s, d);
    if any_index(s, named_after(d.display_name)) {
        lemma_first_exists(s, named_after(d.display_name));
        let p = first_index(s, named_after(d.display_name));
        assert forall|a: int, b: int| 0 <= a < b < t.len() implies !seq_lt(
            #[trigger] t[b].display_name,
            #[trigger] t[a].display_name,
        ) by {
            if b < p {
                assert(t[a] == s[a] && t[b] == s[b]);
            } else if b == p {
                assert(t[a] == s[a]);
            } else if a < p {
                assert(t[a] == s[a] && t[b] == s[b - 1]);
            } else if a == p {
                assert(t[b] == s[b - 1]);
                lemma_seq_lt_total(d.display_name, s[p].display_name);
                lemma_seq_lt_strict(s[b - 1].display_name, d.display_name, s[p].display_name);
            } else {
                assert(t[a] == s[a - 1] && t[b] == s[b - 1]);
            }
        }
        assert(t.remove(p) =~= s);
        assert(t[p] == d);
        assert(t.to_multiset().remove(d) =~= s.to_multiset());
        assert(t.contains(d));
        assert(t.to_multiset().count(d) > 0);
        assert(t.to_multiset() =~= s.to_multiset().insert(d));
    } else {
        assert forall|a: int, b: int| 0 <= a < b < t.len() implies !seq_lt(
            #[trigger] t[b].display_name,
            #[trigger] t[a].display_name,
        ) by {
            if b == s.len() {
                assert(t[a] == s[a]);
                if seq_lt(d.display_name, s[a].display_name) {
                    assert(named_after(d.display_name)(s[a]));
                }
            } else {
                assert(t[a] == s[a] && t[b] == s[b]);
            }
        }
    }
}

/// A registry snapshot lists the devices ordered by name, and lists each
/// known device exactly as often as the registry holds it.
pub proof fn lemma_snapshot_order_is_by_name(s: Seq<DiscoveredDeviceView>)
    ensures
        name_ordered(sorted_by_name(s)),
        sorted_by_name(s).to_multiset() == s.to_multiset(),
    decreases s.len(),
{
    broadcast use vstd::seq_lib::group_to_multiset_ensures;

    if s.len() > 0 {
        lemma_snapshot_order_is_by_name(s.drop_last());
        lemma_insert_by_name_ordered(sorted_by_name(s.drop_last()), s.last());
        assert(s =~= s.drop_last().push(s.last()));
    } else {
        assert(s.to_multiset() =~= vstd::multiset::Multiset::empty());
    }
}

/// What the network reports about announced services, as plain values.
pub enum ServiceSignal {
    /// A service was resolved to its TXT record and addresses.
    Resolved(ResolvedServiceRecord),
    /// A service under this full name went away.
    Removed { fullname: String },
    /// Anything else (searches starting or stopping, services found but not
    /// yet resolved).
    Other,
}

pub open spec fn pending_views(s: Seq<DiscoveryEvent>) -> Seq<DiscoveryEventView> {
    s.map_values(|e: DiscoveryEvent| e@)
}

/// The registry fed by network signals, and the events not yet handed out,
/// oldest first.
pub struct DiscoveryFeed {
    registry: DeviceRegistry,
    pending: Vec<DiscoveryEvent>,
}

pub open spec fn queued(pending: Seq<DiscoveryEventView>, event: Option<DiscoveryEventView>) -> Seq<DiscoveryEventView> {
    match event {
        Some(e) => pending.push(e),
        None => pending,
    }
}

impl DiscoveryFeed {
    pub closed spec fn pending(&self) -> Seq<DiscoveryEventView> {
        pending_views(self.pending@)
    }

    /// The registry's entries.
    pub closed spec fn entries(&self) -> Seq<RegistryEntryView> {
        self.registry.entries()
    }

    pub closed spec fn stale_timeout(&self) -> u64 {
        self.registry.stale_timeout()
    }

    pub closed spec fn wf(&self) -> bool {
        self.registry.wf()
    }

    /// An empty feed whose devices go stale after `stale_timeout_secs`
    /// (at least one second).
    pub fn new(stale_timeout_secs: u64) -> (r: Self)
        ensures
            r.wf(),
            r.entries() == Seq::<RegistryEntryView>::empty(),
            r.stale_timeout() == (if stale_timeout_secs == 0 { 1000 } else if stale_timeout_secs * 1000
                <= u64::MAX { stale_timeout_secs * 1000 } else { u64::MAX as int }),
            r.pending() == Seq::<DiscoveryEventView>::empty(),
    {
        let secs = if stale_timeout_secs == 0 { 1 } else { stale_timeout_secs };
        let timeout_ms = if secs <= u64::MAX / 1000 { secs * 1000 } else { u64::MAX };
        let r = DiscoveryFeed { registry: DeviceRegistry::new(timeout_ms), pending: Vec::new() };
        assert(r.pending() =~= Seq::<DiscoveryEventView>::empty());
        r
    }

    /// Takes in one network signal, stamped `seen_unix_ms` by the wall clock
    /// and seen at `now_ms` by the monotonic clock: a resolved service is
    /// recorded (queuing the event it causes, if any), a removed one is
    /// forgotten (queuing its removal, if it was known); other signals
    /// change nothing.
    pub fn handle_signal(&mut self, signal: ServiceSignal, seen_unix_ms: u64, now_ms: u64)
        requires
            old(self).wf(),
        ensures
            final(self).wf(),
            final(self).stale_timeout() == old(self).stale_timeout(),
            match signal {
                ServiceSignal::Resolved(record) => {
                    let step = registry_upsert(
                        old(self).entries(),
                        device_from_record(record, seen_unix_ms),
                        seen_unix_ms,
                        now_ms,
                    );
                    final(self).entries() == step.0 && final(self).pending() == queued(old(self).pending(), step.1)
                },
                ServiceSignal::Removed { fullname } => {
                    let step = registry_remove(old(self).entries(), fullname@);
                    final(self).entries() == step.0 && final(self).pending() == queued(old(self).pending(), step.1)
                },
                ServiceSignal::Other => final(self).entries() == old(self).entries()
                    && final(self).pending() == old(self).pending(),
            },
    {
        let event = match &signal {
            ServiceSignal::Resolved(record) => {
                let device = discovered_device_from_record(record, seen_unix_ms);
                self.registry.upsert_at(device, seen_unix_ms, now_ms)
            },
            ServiceSignal::Removed { fullname } => self.registry.mark_removed_by_fullname(fullname.as_str()),
            ServiceSignal::Other => None,
        };
        let ghost before = self.pending@;
        match event {
            Some(e) => {
                self.pending.push(e);
                assert(pending_views(self.pending@) =~= pending_views(before).push(e@));
            },
            None => {},
        }
    }

    /// Marks devices unannounced for the timeout as of `now_ms`, by the
    /// monotonic clock, stale and returns their expiry events.
    pub fn prune_stale_at(&mut self, now_ms: u64) -> (r: Vec<DiscoveryEvent>)
        requires
            old(self).wf(),
        ensures
            final(self).wf(),
            final(self).stale_timeout() == old(self).stale_timeout(),
            final(self).pending() == old(self).pending(),
            final(self).entries() == old(self).entries().map_values(pruned_entry(now_ms, old(self).stale_timeout())),
            r@.map_values(|e: DiscoveryEvent| e@) == expiry_events(old(self).entries(), now_ms, old(self).stale_timeout()),
    {
        self.registry.prune_stale_at(now_ms)
    }

    /// The known devices ordered by name, stamped `now_ms`.
    pub fn snapshot_at(&self, now_ms: u64) -> (r: DiscoverySnapshot)
        ensures
            device_views(r.devices@) == sorted_by_name(entry_devices(self.entries())),
            r.updated_at_unix_ms == now_ms,
    {
        self.registry.snapshot_at(now_ms)
    }

    /// The oldest event not yet handed out.
    pub fn next_event(&mut self) -> (r: Option<DiscoveryEvent>)
        requires
            old(self).wf(),
        ensures
            final(self).wf(),
            final(self).entries() == old(self).entries(),
            final(self).stale_timeout() == old(self).stale_timeout(),
            old(self).pending().len() == 0 ==> r is None && final(self).pending() == old(self).pending(),
            old(self).pending().len() > 0 ==> r is Some && r->0@ == old(self).pending()[0]
                && final(self).pending() == old(self).pending().drop_first(),
    {
        if self.pending.len() == 0 {
            None
        } else {
            let e = self.pending.remove(0);
            assert(pending_views(self.pending@) =~= old(self).pending().drop_first());
            Some(e)
        }
    }
}

} // verus!
