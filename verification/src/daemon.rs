//! The daemon's decisions: routing of events between its subsystems, the
//! answers to the GUI's commands, and the forwarding of captured input.
//!
//! The program around this crate runs the actors, the channels and the IPC
//! socket (JSON lines); for every event or command it calls the functions
//! here and performs the actions they return.
use vstd::prelude::*;
use crate::config::AppConfig;
use crate::events::InputEvent;
use crate::protocol::{ControlMessage, DataMessage, InputMessage};
use crate::types::{ConnectionState, FocusState, PeerId, PeerInfo, ScreenLink};

verus! {

/// Central message types routed between actors.
#[derive(Debug, Clone)]
pub enum CoordinatorEvent {
    /// A peer connected.
    PeerConnected(PeerInfo),
    /// A peer disconnected.
    PeerDisconnected(PeerId),
    /// Focus changed to a different peer.
    FocusChanged(FocusState),
    /// Input event received from network (needs injection).
    IncomingInput(InputMessage),
    /// Input event captured locally (needs forwarding).
    OutgoingInput(InputMessage),
    /// Control message received.
    ControlReceived(PeerId, ControlMessage),
    /// Data message received (clipboard, FIDO2).
    DataReceived(PeerId, DataMessage),
    /// Configuration changed.
    ConfigChanged(AppConfig),
    /// KVM toggled on/off.
    KvmToggled(bool),
}

/// What the coordinator does in answer to an event.
#[derive(Debug)]
pub enum CoordinatorAction {
    /// Broadcast the event to the actors that follow it.
    Broadcast(CoordinatorEvent),
    /// Publish a new focus state.
    PublishFocus(FocusState),
    /// Publish whether the KVM is active.
    PublishKvmActive(bool),
    /// Hand an input event to the injector.
    Inject(InputEvent),
    /// Hand a remote clipboard update to the clipboard actor.
    ForwardClipboard(DataMessage),
    /// Publish a new configuration.
    PublishConfig(AppConfig),
}

/// The focus state the coordinator starts with, and returns to when the
/// cursor leaves a remote screen: the local peer, display 0, at the origin.
pub open spec fn local_focus(local: PeerId) -> FocusState {
    FocusState { active_peer: local, active_display: 0, cursor_x: 0, cursor_y: 0 }
}

/// The initial focus state.
pub fn initial_focus(local: PeerId) -> (f: FocusState)
    ensures
        f == local_focus(local),
{
    FocusState { active_peer: local, active_display: 0, cursor_x: 0, cursor_y: 0 }
}

/// The actions for an event, in order.
pub open spec fn route_actions(local: PeerId, event: CoordinatorEvent) -> Seq<CoordinatorAction> {
    match event {
        CoordinatorEvent::PeerConnected(_) => seq![CoordinatorAction::Broadcast(event)],
        CoordinatorEvent::PeerDisconnected(_) => seq![CoordinatorAction::Broadcast(event)],
        CoordinatorEvent::FocusChanged(f) => seq![CoordinatorAction::PublishFocus(f), CoordinatorAction::Broadcast(event)],
        CoordinatorEvent::KvmToggled(a) => seq![CoordinatorAction::PublishKvmActive(a)],
        CoordinatorEvent::IncomingInput(msg) => match msg {
            InputMessage::Event(e) => seq![CoordinatorAction::Inject(e)],
            InputMessage::EventBatch(es) => es@.map_values(|e: InputEvent| CoordinatorAction::Inject(e)),
        },
        CoordinatorEvent::OutgoingInput(_) => Seq::empty(),
        CoordinatorEvent::ControlReceived(peer, msg) => match msg {
            ControlMessage::ScreenEnter { display_id, x, y, .. } => seq![CoordinatorAction::PublishFocus(
                FocusState { active_peer: peer, active_display: display_id, cursor_x: x, cursor_y: y },
            )],
            ControlMessage::ScreenLeave { .. } => seq![CoordinatorAction::PublishFocus(local_focus(local))],
            _ => Seq::empty(),
        },
        CoordinatorEvent::DataReceived(peer, msg) => if msg is ClipboardUpdate && peer != local {
            seq![CoordinatorAction::ForwardClipboard(msg)]
        } else {
            Seq::empty()
        },
        CoordinatorEvent::ConfigChanged(c) => seq![CoordinatorAction::PublishConfig(c)],
    }
}

/// Routes one event received by the coordinator of the local peer: peer
/// and focus events are broadcast (a focus change is also published), a
/// KVM toggle is published, remote input goes to the injector event by
/// event, a cursor entering this machine's screen from a peer gives that
/// peer the focus at the given position and leaving it gives the focus
/// back to the local peer, clipboard updates from other peers go to the
/// clipboard actor, and a new configuration is published.
pub fn route_event(local: PeerId, event: CoordinatorEvent) -> (actions: Vec<CoordinatorAction>)
    ensures
        actions@ == route_actions(local, event),
{
    let ghost ev = event;
    let mut actions: Vec<CoordinatorAction> = Vec::new();
    match event {
        CoordinatorEvent::PeerConnected(info) => {
            actions.push(CoordinatorAction::Broadcast(CoordinatorEvent::PeerConnected(info)));
        },
        CoordinatorEvent::PeerDisconnected(id) => {
            actions.push(CoordinatorAction::Broadcast(CoordinatorEvent::PeerDisconnected(id)));
        },
        CoordinatorEvent::FocusChanged(focus) => {
            actions.push(CoordinatorAction::PublishFocus(focus));
            actions.push(CoordinatorAction::Broadcast(CoordinatorEvent::FocusChanged(focus)));
        },
        CoordinatorEvent::KvmToggled(active) => {
            actions.push(CoordinatorAction::PublishKvmActive(active));
        },
        CoordinatorEvent::IncomingInput(msg) => {
            match msg {
                InputMessage::Event(e) => {
                    actions.push(CoordinatorAction::Inject(e));
                },
                InputMessage::EventBatch(events) => {
                    let mut i: usize = 0;
                    while i < events.len()
                        invariant
                            0 <= i <= events@.len(),
                            actions@ == events@.subrange(0, i as int).map_values(|e: InputEvent| CoordinatorAction::Inject(e)),
                        decreases events@.len() - i,
                    {
                        actions.push(CoordinatorAction::Inject(events[i]));
                        i = i + 1;
                        assert(actions@ =~= events@.subrange(0, i as int).map_values(|e: InputEvent| CoordinatorAction::Inject(e)));
                    }
                    assert(events@.subrange(0, i as int) =~= events@);
                },
            }
        },
        CoordinatorEvent::OutgoingInput(_) => {},
        CoordinatorEvent::ControlReceived(peer, msg) => {
            match msg {
                ControlMessage::ScreenEnter { display_id, x, y, .. } => {
                    actions.push(CoordinatorAction::PublishFocus(
                        FocusState { active_peer: peer, active_display: display_id, cursor_x: x, cursor_y: y },
                    ));
                },
                ControlMessage::ScreenLeave { .. } => {
                    actions.push(CoordinatorAction::PublishFocus(initial_focus(local)));
                },
                _ => {},
            }
        },
        CoordinatorEvent::DataReceived(peer, msg) => {
            let is_clipboard = match &msg {
                DataMessage::ClipboardUpdate { .. } => true,
                _ => false,
            };
            if is_clipboard && peer != local {
                actions.push(CoordinatorAction::ForwardClipboard(msg));
            }
        },
        CoordinatorEvent::ConfigChanged(config) => {
            actions.push(CoordinatorAction::PublishConfig(config));
        },
    }
    proof {
        assert(actions@ =~= route_actions(local, ev));
    }
    actions
}

/// Focus law: a cursor leaving this machine's screen always gives the focus
/// back to the local peer, and entering it hands the focus to the sending
/// peer; the local peer's own clipboard updates never come back to the
/// clipboard.
pub proof fn law_focus_routing(local: PeerId, peer: PeerId, msg: ControlMessage, data: DataMessage)
    ensures
        msg is ScreenLeave ==> route_actions(local, CoordinatorEvent::ControlReceived(peer, msg))
            == seq![CoordinatorAction::PublishFocus(local_focus(local))],
        msg matches ControlMessage::ScreenEnter { display_id, x, y, .. } ==> route_actions(local, CoordinatorEvent::ControlReceived(peer, msg))
            == seq![CoordinatorAction::PublishFocus(FocusState { active_peer: peer, active_display: display_id, cursor_x: x, cursor_y: y })],
        route_actions(local, CoordinatorEvent::DataReceived(local, data)).len() == 0,
{
}

/// KVM switch law: a toggle publishes the state it carries and nothing
/// else, so switching off publishes "inactive" and switching on publishes
/// "active", and the two toggles never publish the same state.
pub proof fn law_kvm_toggle(local: PeerId, active: bool)
    ensures
        route_actions(local, CoordinatorEvent::KvmToggled(active)).len() == 1,
        route_actions(local, CoordinatorEvent::KvmToggled(active))[0] matches CoordinatorAction::PublishKvmActive(published)
            && published == active,
        route_actions(local, CoordinatorEvent::KvmToggled(true)) != route_actions(local, CoordinatorEvent::KvmToggled(false)),
{
    assert(route_actions(local, CoordinatorEvent::KvmToggled(true))[0] != route_actions(local, CoordinatorEvent::KvmToggled(false))[0]);
}

/// Forwarding of a captured input event: it goes to the network (as a
/// single-event message) only while the KVM is active and a remote peer has
/// the focus; otherwise it stays local.
pub fn forward_captured(event: InputEvent, kvm_active: bool, focus: FocusState, local: PeerId) -> (r: Option<CoordinatorEvent>)
    ensures
        (kvm_active && focus.active_peer != local) ==> r == Some(CoordinatorEvent::OutgoingInput(InputMessage::Event(event))),
        !(kvm_active && focus.active_peer != local) ==> r is None,
{
    if kvm_active && focus.active_peer != local {
        Some(CoordinatorEvent::OutgoingInput(InputMessage::Event(event)))
    } else {
        None
    }
}

/// Whether the clipboard actor starts or stops monitoring when the KVM
/// state changes: start when it becomes active while not monitoring, stop
/// when it becomes inactive while monitoring. Returns the new monitoring
/// flag and whether to start, whether to stop.
pub fn clipboard_monitoring_change(active: bool, monitoring: bool) -> (r: (bool, bool))
    ensures
        r == ((active && !monitoring), (!active && monitoring)),
{
    (active && !monitoring, !active && monitoring)
}

// ---------------------------------------------------------------------------
// IPC with the GUI
// ---------------------------------------------------------------------------

/// Peer status information sent to the GUI. The latency is a
/// floating-point number of milliseconds, carried as the bits of its
/// IEEE-754 double.
#[derive(Debug, Clone)]
pub struct PeerStatusInfo {
    pub id: String,
    pub hostname: String,
    pub os: String,
    pub state: ConnectionState,
    pub latency_ms_bits: Option<u64>,
}

/// Command sent from the GUI to the daemon.
#[derive(Debug, Clone)]
pub enum IpcCommand {
    GetStatus,
    GetPeers,
    GetConfig,
    SaveConfig(AppConfig),
    ConnectPeer { address: String, port: u16 },
    DisconnectPeer(String),
    StartKvm,
    StopKvm,
    UpdateScreenLayout(Vec<ScreenLink>),
}

/// Response from the daemon to the GUI.
#[derive(Debug, Clone)]
pub enum IpcResponse {
    Status { active: bool, connected_peers: usize, uptime_seconds: u64 },
    Peers(Vec<PeerStatusInfo>),
    Config(AppConfig),
    /// The command was carried out.
    Success,
    Error(String),
}

/// What the IPC handler does with a command: answer it (and possibly send
/// an event to the coordinator), or first save a new configuration.
#[derive(Debug)]
pub enum IpcStep {
    Reply { response: IpcResponse, event: Option<CoordinatorEvent> },
    Save(AppConfig),
}

/// Handles a command from the GUI, given whether the KVM is active and the
/// configuration the daemon started with. The daemon does not track peers
/// or uptime yet: the status reports none and the peer list is empty;
/// connect, disconnect and layout commands are acknowledged.
pub fn handle_ipc_command(cmd: IpcCommand, kvm_active: bool, config: AppConfig) -> (step: IpcStep)
    ensures
        match cmd {
            IpcCommand::GetStatus => step == IpcStep::Reply {
                response: IpcResponse::Status { active: kvm_active, connected_peers: 0, uptime_seconds: 0 },
                event: None,
            },
            IpcCommand::GetConfig => step == IpcStep::Reply { response: IpcResponse::Config(config), event: None },
            IpcCommand::SaveConfig(c) => step == IpcStep::Save(c),
            IpcCommand::StartKvm => step == IpcStep::Reply {
                response: IpcResponse::Success,
                event: Some(CoordinatorEvent::KvmToggled(true)),
            },
            IpcCommand::StopKvm => step == IpcStep::Reply {
                response: IpcResponse::Success,
                event: Some(CoordinatorEvent::KvmToggled(false)),
            },
            IpcCommand::GetPeers => step matches IpcStep::Reply { response: IpcResponse::Peers(v), event: None } && v@.len() == 0,
            _ => step == IpcStep::Reply { response: IpcResponse::Success, event: None },
        },
{
    match cmd {
        IpcCommand::GetStatus => IpcStep::Reply {
            response: IpcResponse::Status { active: kvm_active, connected_peers: 0, uptime_seconds: 0 },
            event: None,
        },
        IpcCommand::GetConfig => IpcStep::Reply { response: IpcResponse::Config(config), event: None },
        IpcCommand::SaveConfig(c) => IpcStep::Save(c),
        IpcCommand::StartKvm => IpcStep::Reply {
            response: IpcResponse::Success,
            event: Some(CoordinatorEvent::KvmToggled(true)),
        },
        IpcCommand::StopKvm => IpcStep::Reply {
            response: IpcResponse::Success,
            event: Some(CoordinatorEvent::KvmToggled(false)),
        },
        IpcCommand::GetPeers => IpcStep::Reply { response: IpcResponse::Peers(Vec::new()), event: None },
        IpcCommand::ConnectPeer { .. } => IpcStep::Reply { response: IpcResponse::Success, event: None },
        IpcCommand::DisconnectPeer(_) => IpcStep::Reply { response: IpcResponse::Success, event: None },
        IpcCommand::UpdateScreenLayout(_) => IpcStep::Reply { response: IpcResponse::Success, event: None },
    }
}

/// The answer to a configuration save, given the outcome of writing the
/// file: `Ok` and the new configuration for the coordinator, or the error
/// "Failed to save config: ..." and no event.
pub fn ipc_after_save(config: AppConfig, result: Result<(), String>) -> (r: (IpcResponse, Option<CoordinatorEvent>))
    ensures
        match result {
            Ok(()) => r == (IpcResponse::Success, Some(CoordinatorEvent::ConfigChanged(config))),
            Err(e) => r.1 is None && (r.0 matches IpcResponse::Error(m) && m@ == "Failed to save config: "@ + e@),
        },
{
    match result {
        Ok(()) => (IpcResponse::Success, Some(CoordinatorEvent::ConfigChanged(config))),
        Err(e) => {
            let mut m = String::from_str("Failed to save config: ");
            m.append(e.as_str());
            (IpcResponse::Error(m), None)
        },
    }
}

/// The answer to a line that is not a valid command: "Invalid command: "
/// and the parser's message.
pub fn ipc_invalid_command(parse_error: &str) -> (r: IpcResponse)
    ensures
        r matches IpcResponse::Error(m) && m@ == "Invalid command: "@ + parse_error@,
{
    let mut m = String::from_str("Invalid command: ");
    m.append(parse_error);
    IpcResponse::Error(m)
}

/// A file name joined to a directory as `PathBuf::join` does for a
/// relative name: a `/` is put between them unless the directory is empty
/// or already ends with one.
pub open spec fn join_path(dir: Seq<char>, name: Seq<char>) -> Seq<char> {
    if dir.len() == 0 || dir.last() == '/' {
        dir + name
    } else {
        dir + seq!['/'] + name
    }
}

/// The IPC socket path in a runtime directory (`XDG_RUNTIME_DIR`, or
/// `/tmp` when it is not set).
pub fn socket_path(runtime_dir: Option<&str>) -> (p: String)
    ensures
        match runtime_dir {
            Some(d) => p@ == join_path(d@, "s-kvm-daemon.sock"@),
            None => p@ == join_path("/tmp"@, "s-kvm-daemon.sock"@),
        },
{
    proof {
        reveal_strlit("/tmp");
    }
    let dir: &str = match runtime_dir {
        Some(d) => d,
        None => "/tmp",
    };
    let mut p = String::from_str(dir);
    let n = dir.unicode_len();
    if n > 0 && dir.get_char(n - 1) != '/' {
        crate::text::string_push(&mut p, '/');
    }
    p.append("s-kvm-daemon.sock");
    p
}

/// The IPC named pipe name (Windows).
pub fn pipe_name() -> (p: String)
    ensures
        p@ == "\\\\.\\pipe\\s-kvm-daemon"@,
{
    String::from_str("\\\\.\\pipe\\s-kvm-daemon")
}

} // verus!
