//! mDNS-SD service discovery of peers: what this machine advertises, and
//! how a resolved or removed service becomes a discovery event.
//!
//! The mDNS daemon, its browse channel and the browsing thread belong to
//! the program around this crate, which hands each service event's fields
//! to the functions here.
use vstd::prelude::*;
use crate::platform::str_eq;
use crate::types::{OsType, PeerId, uuid_text, is_v4_uuid};

verus! {

/// The mDNS service type of S-KVM peers.
pub const SERVICE_TYPE: &'static str = "_softkvm._tcp.local.";

/// The protocol version advertised.
pub const ADVERTISED_VERSION: &'static str = "0.1.0";

/// Events emitted by the discovery service.
#[derive(Debug, Clone)]
pub enum DiscoveryEvent {
    /// A new S-KVM peer was discovered.
    PeerDiscovered { peer_id: PeerId, hostname: String, address: String, port: u16, os: OsType, version: String },
    /// A previously discovered peer is no longer available.
    PeerLost { hostname: String },
}

/// Errors of the discovery service.
#[derive(Debug)]
pub enum DiscoveryError {
    Init(String),
    Registration(String),
    Browse(String),
    Shutdown(String),
}

/// The text with its trailing dots removed.
pub open spec fn trim_trailing_dots(s: Seq<char>) -> Seq<char>
    decreases s.len(),
{
    if s.len() > 0 && s.last() == '.' {
        trim_trailing_dots(s.drop_last())
    } else {
        s
    }
}

/// The index of the first occurrence of a character.
pub open spec fn first_index_of(s: Seq<char>, c: char) -> Option<int>
    decreases s.len(),
{
    if s.len() == 0 {
        None
    } else {
        match first_index_of(s.drop_last(), c) {
            Some(i) => Some(i),
            None => if s.last() == c { Some(s.len() - 1) } else { None },
        }
    }
}

/// The text before the first dot (all of it when there is none).
pub open spec fn before_first_dot(s: Seq<char>) -> Seq<char> {
    match first_index_of(s, '.') {
        Some(i) => s.subrange(0, i),
        None => s,
    }
}

/// Removes the trailing dots of a host name (`trim_end_matches('.')`).
pub fn trim_dots(s: &str) -> (r: String)
    ensures
        r@ == trim_trailing_dots(s@),
{
    let mut n = s.unicode_len();
    proof {
        assert(s@.subrange(0, n as int) =~= s@);
    }
    while n > 0 && s.get_char(n - 1) == '.'
        invariant
            0 <= n <= s@.len(),
            trim_trailing_dots(s@) == trim_trailing_dots(s@.subrange(0, n as int)),
        decreases n,
    {
        assert(s@.subrange(0, n as int).drop_last() =~= s@.subrange(0, n as int - 1));
        n = n - 1;
    }
    String::from_str(s.substring_char(0, n))
}

proof fn lemma_first_index_extend(s: Seq<char>, c: char, n: int)
    requires
        0 <= n <= s.len(),
        first_index_of(s.subrange(0, n), c) is Some,
    ensures
        first_index_of(s, c) == first_index_of(s.subrange(0, n), c),
    decreases s.len() - n,
{
    if n < s.len() {
        assert(s.subrange(0, n + 1).drop_last() =~= s.subrange(0, n));
        lemma_first_index_extend(s, c, n + 1);
    } else {
        assert(s.subrange(0, n) =~= s);
    }
}

/// The text before the first dot (`split('.').next()`).
pub fn text_before_first_dot(s: &str) -> (r: String)
    ensures
        r@ == before_first_dot(s@),
{
    let n = s.unicode_len();
    let mut i: usize = 0;
    while i < n
        invariant
            n == s@.len(),
            0 <= i <= n,
            first_index_of(s@.subrange(0, i as int), '.') is None,
        decreases n - i,
    {
        assert(s@.subrange(0, i as int + 1).drop_last() =~= s@.subrange(0, i as int));
        if s.get_char(i) == '.' {
            proof {
                lemma_first_index_extend(s@, '.', i as int + 1);
            }
            return String::from_str(s.substring_char(0, i));
        }
        i = i + 1;
    }
    proof {
        assert(s@.subrange(0, i as int) =~= s@);
    }
    String::from_str(s)
}

/// The name of the operating system in the advertisement, for the build
/// target's operating system (`std::env::consts::OS`).
pub open spec fn advertised_os_text(target_os: Seq<char>) -> Seq<char> {
    if target_os == "linux"@ {
        "Linux"@
    } else if target_os == "windows"@ {
        "Windows"@
    } else {
        "Unknown"@
    }
}

/// What this machine registers with the mDNS daemon.
pub struct ServiceAdvertisement {
    pub service_type: String,
    pub instance_name: String,
    pub host_name: String,
    pub port: u16,
    /// TXT properties: version, peer ID, operating system.
    pub properties: Vec<(String, String)>,
}

/// The advertisement of this peer: instance "S-KVM <host>", host
/// "<host>.", and the properties `version`, `peer_id` and `os`.
pub fn advertisement(peer_id: PeerId, hostname: &str, port: u16, target_os: &str) -> (a: ServiceAdvertisement)
    ensures
        a.service_type@ == SERVICE_TYPE@,
        a.instance_name@ == "S-KVM "@ + hostname@,
        a.host_name@ == hostname@ + "."@,
        a.port == port,
        a.properties@.len() == 3,
        a.properties@[0].0@ == "version"@ && a.properties@[0].1@ == ADVERTISED_VERSION@,
        a.properties@[1].0@ == "peer_id"@ && a.properties@[1].1@ == uuid_text(peer_id.0),
        a.properties@[2].0@ == "os"@ && a.properties@[2].1@ == advertised_os_text(target_os@),
{
    proof {
        reveal_strlit("linux");
        reveal_strlit("windows");
        assert("linux"@.len() != "windows"@.len());
    }
    let os: &str = if str_eq(target_os, "linux") {
        "Linux"
    } else if str_eq(target_os, "windows") {
        "Windows"
    } else {
        "Unknown"
    };
    let mut properties: Vec<(String, String)> = Vec::new();
    properties.push((String::from_str("version"), String::from_str(ADVERTISED_VERSION)));
    properties.push((String::from_str("peer_id"), peer_id.to_string()));
    properties.push((String::from_str("os"), String::from_str(os)));
    let mut instance_name = String::from_str("S-KVM ");
    instance_name.append(hostname);
    let mut host_name = String::from_str(hostname);
    host_name.append(".");
    ServiceAdvertisement {
        service_type: String::from_str(SERVICE_TYPE),
        instance_name,
        host_name,
        port,
        properties,
    }
}

/// The operating system named by a peer's `os` property: Linux, Windows
/// or MacOS; anything else (or no property) counts as Linux.
pub fn os_from_property(os: Option<&str>) -> (t: OsType)
    ensures
        t == (match os {
            Some(s) => if s@ == "Windows"@ {
                OsType::Windows
            } else if s@ == "MacOS"@ {
                OsType::MacOS
            } else {
                OsType::Linux
            },
            None => OsType::Linux,
        }),
{
    match os {
        Some(s) => {
            if str_eq(s, "Windows") {
                OsType::Windows
            } else if str_eq(s, "MacOS") {
                OsType::MacOS
            } else {
                OsType::Linux
            }
        },
        None => OsType::Linux,
    }
}

/// The UUID that a text denotes, as `uuid::Uuid::parse_str` reads it.
pub uninterp spec fn uuid_parse(text: Seq<char>) -> Option<u128>;

/// Parses a UUID (`text.parse::<uuid::Uuid>()`, read with `as_u128`).
/// Claims: the result is a function of the text, and the hyphenated
/// lower-case text of a UUID parses back to it (the crate documents the
/// hyphenated form as accepted).
#[verifier::external_body]
fn parse_uuid(text: &str) -> (r: Option<u128>)
    ensures
        r == uuid_parse(text@),
        forall|v: u128| text@ == uuid_text(v) ==> r == Some(v),
{
    text.parse::<uuid::Uuid>().ok().map(|u| u.as_u128())
}

/// The peer ID advertised in a `peer_id` property: the UUID it denotes, or
/// a fresh random one when it is missing or does not parse.
pub fn peer_id_from_property(text: Option<&str>) -> (p: PeerId)
    ensures
        match text {
            Some(t) => match uuid_parse(t@) {
                Some(v) => p.0 == v,
                None => is_v4_uuid(p.0),
            },
            None => is_v4_uuid(p.0),
        },
        forall|v: u128| text is Some && text->0@ == uuid_text(v) ==> p.0 == v,
{
    match text {
        Some(t) => match parse_uuid(t) {
            Some(v) => PeerId(v),
            None => PeerId::new(),
        },
        None => PeerId::new(),
    }
}

/// Turns a resolved service into a discovery event, given the fields read
/// from it: its host name (trailing dots removed), its `peer_id`, `version`
/// and `os` properties, its first address and its port. This machine's own
/// service gives no event. A missing version reads "unknown", a missing
/// address reads "", and a missing or unreadable peer ID is replaced by a
/// fresh random (version 4) UUID.
pub fn resolve_service(
    own_hostname: &str,
    service_hostname: &str,
    peer_id: Option<&str>,
    version: Option<&str>,
    os: Option<&str>,
    first_address: Option<String>,
    port: u16,
) -> (r: Option<DiscoveryEvent>)
    ensures
        trim_trailing_dots(service_hostname@) == own_hostname@ ==> r is None,
        trim_trailing_dots(service_hostname@) != own_hostname@ ==> (r matches Some(DiscoveryEvent::PeerDiscovered {
            peer_id: id,
            hostname,
            address,
            port: p,
            os: o,
            version: v,
        }) && {
            &&& hostname@ == trim_trailing_dots(service_hostname@)
            &&& p == port
            &&& o == os_from_property_spec(os)
            &&& v@ == (match version { Some(s) => s@, None => "unknown"@ })
            &&& address@ == (match first_address { Some(a) => a@, None => Seq::<char>::empty() })
            &&& (peer_id is Some && uuid_parse(peer_id->0@) is Some ==> id.0 == uuid_parse(peer_id->0@)->0)
            &&& (peer_id is None || uuid_parse(peer_id->0@) is None ==> is_v4_uuid(id.0))
            &&& (forall|v: u128| peer_id is Some && peer_id->0@ == uuid_text(v) ==> id.0 == v)
        }),
{
    let hostname = trim_dots(service_hostname);
    if str_eq(hostname.as_str(), own_hostname) {
        return None;
    }
    let version = match version {
        Some(s) => String::from_str(s),
        None => String::from_str("unknown"),
    };
    let os = os_from_property(os);
    let peer_id = peer_id_from_property(peer_id);
    let address = match first_address {
        Some(a) => a,
        None => String::new(),
    };
    Some(DiscoveryEvent::PeerDiscovered { peer_id, hostname, address, port, os, version })
}

/// The operating system named by an `os` property (see `os_from_property`).
pub open spec fn os_from_property_spec(os: Option<&str>) -> OsType {
    match os {
        Some(s) => if s@ == "Windows"@ {
            OsType::Windows
        } else if s@ == "MacOS"@ {
            OsType::MacOS
        } else {
            OsType::Linux
        },
        None => OsType::Linux,
    }
}

/// Whether `s` has `p` at position `i`.
pub open spec fn text_at(s: Seq<char>, p: Seq<char>, i: int) -> bool {
    0 <= i && i + p.len() <= s.len() && s.subrange(i, i + p.len()) == p
}

/// Whether `p` occurs in `s` at position `i` (`i + p.len()` within `s`).
fn str_at(s: &str, p: &str, i: usize) -> (b: bool)
    requires
        i + p@.len() <= s@.len(),
    ensures
        b == text_at(s@, p@, i as int),
{
    let n = s.unicode_len();
    let m = p.unicode_len();
    let mut j: usize = 0;
    while j < m
        invariant
            n == s@.len(),
            m == p@.len(),
            i + m <= s@.len(),
            0 <= j <= m,
            forall|t: int| 0 <= t < j ==> s@[i + t] == p@[t],
        decreases m - j,
    {
        if s.get_char(i + j) != p.get_char(j) {
            proof {
                assert(s@.subrange(i as int, i + m)[j as int] == s@[i + j]);
            }
            return false;
        }
        j = j + 1;
    }
    assert(s@.subrange(i as int, i + m) =~= p@);
    true
}

/// The instance label of a service's full name: the name without the
/// ".<service type>" suffix, or up to its first dot when it has no such
/// suffix.
pub open spec fn instance_label(fullname: Seq<char>) -> Seq<char> {
    let suffix = "."@ + SERVICE_TYPE@;
    if text_at(fullname, suffix, fullname.len() - suffix.len()) {
        fullname.take(fullname.len() - suffix.len())
    } else {
        before_first_dot(fullname)
    }
}

/// The host of an instance label: the label without the "S-KVM " prefix
/// that `advertisement` puts before the host (the label itself when it has
/// no such prefix).
pub open spec fn label_host(label: Seq<char>) -> Seq<char> {
    if text_at(label, "S-KVM "@, 0) {
        label.skip(6)
    } else {
        label
    }
}

/// Turns a removed service's full name into a discovery event naming the
/// lost peer's host, as `PeerDiscovered` named it: the instance label
/// without the "S-KVM " prefix.
pub fn service_removed(fullname: &str) -> (e: DiscoveryEvent)
    ensures
        e matches DiscoveryEvent::PeerLost { hostname } && hostname@ == label_host(instance_label(fullname@)),
{
    proof {
        reveal_strlit(".");
        reveal_strlit("_softkvm._tcp.local.");
        reveal_strlit("S-KVM ");
    }
    let mut suffix = String::from_str(".");
    suffix.append(SERVICE_TYPE);
    let n = fullname.unicode_len();
    let k = suffix.unicode_len();
    let label: String = if k <= n && str_at(fullname, suffix.as_str(), n - k) {
        String::from_str(fullname.substring_char(0, n - k))
    } else {
        proof {
            assert(!text_at(fullname@, suffix@, fullname@.len() - suffix@.len()));
        }
        text_before_first_dot(fullname)
    };
    let prefix = "S-KVM ";
    let ln = label.unicode_len();
    let host: String = if 6 <= ln && str_at(label.as_str(), prefix, 0) {
        String::from_str(label.as_str().substring_char(6, ln))
    } else {
        label
    };
    DiscoveryEvent::PeerLost { hostname: host }
}

/// Lost-peer law: the removal of the service that `advertisement`
/// registers for a host names that host, whatever the host is.
pub proof fn law_lost_peer_named(host: Seq<char>)
    ensures
        label_host(instance_label("S-KVM "@ + host + "."@ + SERVICE_TYPE@)) == host,
{
    reveal_strlit(".");
    reveal_strlit("_softkvm._tcp.local.");
    reveal_strlit("S-KVM ");
    let suffix = "."@ + SERVICE_TYPE@;
    let label = "S-KVM "@ + host;
    let full = "S-KVM "@ + host + "."@ + SERVICE_TYPE@;
    assert(full =~= label + suffix);
    assert(full.subrange(full.len() - suffix.len(), full.len() as int) =~= suffix);
    assert(full.take(full.len() - suffix.len()) =~= label);
    assert(label.subrange(0, 6) =~= "S-KVM "@);
    assert(label.skip(6) =~= host);
}

/// Discovery law (host part): the host name that `advertisement` registers
/// (the host and a dot) is read back by `resolve_service` as the host
/// itself, when the host has no trailing dot; the identity part is in the
/// contract of `resolve_service` (the advertised `peer_id` text of a UUID
/// resolves to that UUID).
pub proof fn law_advertised_peer_discovered(peer: u128, host: Seq<char>, own: Seq<char>)
    requires
        host.len() > 0,
        host.last() != '.',
        host != own,
    ensures
        trim_trailing_dots(host + "."@) == host,
{
    reveal_strlit(".");
    let h = host + "."@;
    assert(h.len() > 0 && h.last() == '.');
    assert(h.drop_last() =~= host);
    assert(trim_trailing_dots(host) == host);
    assert(trim_trailing_dots(h) == trim_trailing_dots(h.drop_last()));
}

} // verus!
