//! The GUI's side of its commands: each command asks the daemon first and
//! falls back to the GUI's own state when the daemon is not connected.
//!
//! The window toolkit, its state locks and the daemon connection belong to
//! the program around this crate; what the commands return is decided here.
use vstd::prelude::*;
use crate::daemon::{IpcResponse, PeerStatusInfo};
use crate::text::{decimal, push_decimal};
use crate::types::{ConnectionState, DisplayInfo, PeerCapabilities, PeerId, PeerInfo, OsType, os_type_text, uuid_text};

verus! {

/// KVM status shown by the GUI.
#[derive(Debug, Clone)]
pub struct KvmStatus {
    pub active: bool,
    pub active_peer: Option<String>,
    pub connected_peers: usize,
    pub uptime_seconds: u64,
}

/// Status of a peer shown by the GUI. The latency is carried as the bits
/// of its IEEE-754 double.
#[derive(Debug, Clone)]
pub struct PeerStatus {
    pub id: String,
    pub hostname: String,
    pub os: String,
    pub state: ConnectionState,
    pub latency_ms_bits: Option<u64>,
    pub displays: Vec<DisplayInfo>,
    pub capabilities: PeerCapabilities,
}

/// A peer in the GUI's own state.
#[derive(Debug, Clone)]
pub struct PeerState {
    pub info: PeerInfo,
    pub connection_state: ConnectionState,
    pub latency_ms_bits: Option<u64>,
    pub last_seen: u64,
}

/// The outcome of a command the daemon only acknowledges: its `Success`
/// is `Ok`, its error is the error, any other answer is "Unexpected daemon
/// response".
pub fn daemon_reply(resp: IpcResponse) -> (r: Result<(), String>)
    ensures
        match resp {
            IpcResponse::Success => r is Ok,
            IpcResponse::Error(e) => r matches Err(m) && m@ == e@,
            _ => r matches Err(m) && m@ == "Unexpected daemon response"@,
        },
{
    match resp {
        IpcResponse::Success => Ok(()),
        IpcResponse::Error(e) => Err(e),
        _ => Err(String::from_str("Unexpected daemon response")),
    }
}

/// The connection status text: "connected (N peers)" when peers are
/// connected, else "disconnected".
pub open spec fn status_text(connected: nat) -> Seq<char> {
    if connected > 0 {
        "connected ("@ + decimal(connected) + " peers)"@
    } else {
        "disconnected"@
    }
}

/// The connection status text for a number of connected peers.
pub fn connection_status_text(connected: usize) -> (s: String)
    ensures
        s@ == status_text(connected as nat),
{
    if connected > 0 {
        let mut s = String::from_str("connected (");
        push_decimal(&mut s, connected as u64);
        s.append(" peers)");
        s
    } else {
        String::from_str("disconnected")
    }
}

/// The number of states that satisfy a predicate.
pub open spec fn count_states(states: Seq<ConnectionState>, p: spec_fn(ConnectionState) -> bool) -> nat
    decreases states.len(),
{
    if states.len() == 0 {
        0
    } else {
        count_states(states.drop_last(), p) + (if p(states.last()) { 1nat } else { 0nat })
    }
}

/// Whether a peer counts as connected for the connection status:
/// connected, authenticated or active.
pub open spec fn is_linked(s: ConnectionState) -> bool {
    s == ConnectionState::Connected || s == ConnectionState::Authenticated || s == ConnectionState::Active
}

/// Whether a peer counts as connected for the KVM status: connected or
/// active.
pub open spec fn is_connected_or_active(s: ConnectionState) -> bool {
    s == ConnectionState::Connected || s == ConnectionState::Active
}

/// The number of peers that count as connected for the connection status.
pub fn count_linked(states: &Vec<ConnectionState>) -> (n: usize)
    ensures
        n == count_states(states@, |s: ConnectionState| is_linked(s)),
{
    let mut n: usize = 0;
    let mut i: usize = 0;
    while i < states.len()
        invariant
            0 <= i <= states@.len(),
            n == count_states(states@.subrange(0, i as int), |s: ConnectionState| is_linked(s)),
            n <= i,
        decreases states@.len() - i,
    {
        assert(states@.subrange(0, i as int + 1).drop_last() =~= states@.subrange(0, i as int));
        let s = states[i];
        if s == ConnectionState::Connected || s == ConnectionState::Authenticated || s == ConnectionState::Active {
            n = n + 1;
        }
        i = i + 1;
    }
    assert(states@.subrange(0, i as int) =~= states@);
    n
}

/// The number of peers that count as connected for the KVM status.
pub fn count_connected_or_active(states: &Vec<ConnectionState>) -> (n: usize)
    ensures
        n == count_states(states@, |s: ConnectionState| is_connected_or_active(s)),
{
    let mut n: usize = 0;
    let mut i: usize = 0;
    while i < states.len()
        invariant
            0 <= i <= states@.len(),
            n == count_states(states@.subrange(0, i as int), |s: ConnectionState| is_connected_or_active(s)),
            n <= i,
        decreases states@.len() - i,
    {
        assert(states@.subrange(0, i as int + 1).drop_last() =~= states@.subrange(0, i as int));
        let s = states[i];
        if s == ConnectionState::Connected || s == ConnectionState::Active {
            n = n + 1;
        }
        i = i + 1;
    }
    assert(states@.subrange(0, i as int) =~= states@);
    n
}

/// The connection status: from the daemon's status when it answered one,
/// else from the states of the peers the GUI knows.
pub fn connection_status(daemon: Option<IpcResponse>, local_states: &Vec<ConnectionState>) -> (s: String)
    ensures
        match daemon {
            Some(IpcResponse::Status { connected_peers, .. }) => s@ == status_text(connected_peers as nat),
            _ => s@ == status_text(count_states(local_states@, |st: ConnectionState| is_linked(st))),
        },
{
    match daemon {
        Some(IpcResponse::Status { connected_peers, .. }) => connection_status_text(connected_peers),
        _ => connection_status_text(count_linked(local_states)),
    }
}

/// The KVM status: from the daemon's status when it answered one, else
/// from the GUI's own flag, peers and uptime. No active peer is reported.
pub fn kvm_status(daemon: Option<IpcResponse>, local_active: bool, local_states: &Vec<ConnectionState>, local_uptime: u64) -> (k: KvmStatus)
    ensures
        k.active_peer is None,
        match daemon {
            Some(IpcResponse::Status { active, connected_peers, uptime_seconds }) => {
                &&& k.active == active
                &&& k.connected_peers == connected_peers
                &&& k.uptime_seconds == uptime_seconds
            },
            _ => {
                &&& k.active == local_active
                &&& k.connected_peers == count_states(local_states@, |s: ConnectionState| is_connected_or_active(s))
                &&& k.uptime_seconds == local_uptime
            },
        },
{
    match daemon {
        Some(IpcResponse::Status { active, connected_peers, uptime_seconds }) => KvmStatus {
            active,
            active_peer: None,
            connected_peers,
            uptime_seconds,
        },
        _ => KvmStatus {
            active: local_active,
            active_peer: None,
            connected_peers: count_connected_or_active(local_states),
            uptime_seconds: local_uptime,
        },
    }
}

/// A peer reported by the daemon, as the GUI shows it: no displays and the
/// default capabilities.
pub fn peer_status_from_daemon(p: PeerStatusInfo) -> (s: PeerStatus)
    ensures
        s.id@ == p.id@,
        s.hostname@ == p.hostname@,
        s.os@ == p.os@,
        s.state == p.state,
        s.latency_ms_bits == p.latency_ms_bits,
        s.displays@.len() == 0,
        s.capabilities == (PeerCapabilities {
            input_forwarding: true,
            display_streaming: false,
            audio_sharing: false,
            clipboard_sharing: true,
            fido2_forwarding: false,
        }),
{
    PeerStatus {
        id: p.id,
        hostname: p.hostname,
        os: p.os,
        state: p.state,
        latency_ms_bits: p.latency_ms_bits,
        displays: Vec::new(),
        capabilities: PeerCapabilities::default(),
    }
}

/// A peer of the GUI's own state, as the GUI shows it.
pub fn peer_status_local(p: PeerState) -> (s: PeerStatus)
    ensures
        s.id@ == uuid_text(p.info.id.0),
        s.hostname@ == p.info.hostname@,
        s.os@ == os_type_text(p.info.os),
        s.state == p.connection_state,
        s.latency_ms_bits == p.latency_ms_bits,
        s.displays@ == p.info.displays@,
        s.capabilities == p.info.capabilities,
{
    let id = p.info.id.to_string();
    let os = String::from_str(p.info.os.name());
    PeerStatus {
        id,
        hostname: p.info.hostname,
        os,
        state: p.connection_state,
        latency_ms_bits: p.latency_ms_bits,
        displays: p.info.displays,
        capabilities: p.info.capabilities,
    }
}

/// The peer the GUI records when asked to connect while the daemon is
/// away: a fresh identity, the address as host name, Linux, no displays,
/// default capabilities, connecting.
pub fn placeholder_peer(address: String) -> (p: PeerState)
    ensures
        p.info.hostname@ == address@,
        p.info.os == OsType::Linux,
        p.info.displays@.len() == 0,
        p.connection_state == ConnectionState::Connecting,
        p.latency_ms_bits is None,
        p.last_seen == 0,
{
    PeerState {
        info: PeerInfo {
            id: PeerId::new(),
            hostname: address,
            os: OsType::Linux,
            displays: Vec::new(),
            capabilities: PeerCapabilities::default(),
        },
        connection_state: ConnectionState::Connecting,
        latency_ms_bits: None,
        last_seen: 0,
    }
}

/// What a tray menu entry does.
#[derive(Debug, Clone, Copy, PartialEq, Eq, Structural)]
pub enum TrayAction {
    ToggleKvm,
    ShowSettings,
    Quit,
    Nothing,
}

/// The action of a tray menu entry by its id.
pub fn tray_action(id: &str) -> (a: TrayAction)
    ensures
        a == (if id@ == "toggle"@ {
            TrayAction::ToggleKvm
        } else if id@ == "settings"@ {
            TrayAction::ShowSettings
        } else if id@ == "quit"@ {
            TrayAction::Quit
        } else {
            TrayAction::Nothing
        }),
{
    if crate::platform::str_eq(id, "toggle") {
        TrayAction::ToggleKvm
    } else if crate::platform::str_eq(id, "settings") {
        TrayAction::ShowSettings
    } else if crate::platform::str_eq(id, "quit") {
        TrayAction::Quit
    } else {
        TrayAction::Nothing
    }
}

/// Status law: the connection status says "disconnected" exactly when no
/// peer counts as connected.
pub proof fn law_status_text(n: nat)
    ensures
        (status_text(n) == "disconnected"@) <==> n == 0,
{
    reveal_strlit("disconnected");
    reveal_strlit("connected (");
    if n > 0 {
        assert(status_text(n)[0] == 'c');
        assert("disconnected"@[0] == 'd');
    }
}

} // verus!
