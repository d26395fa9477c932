use s_kvm::config::AppConfig;
use s_kvm::daemon::{
    clipboard_monitoring_change, forward_captured, handle_ipc_command, initial_focus, ipc_after_save,
    ipc_invalid_command, pipe_name, route_event, socket_path, CoordinatorAction, CoordinatorEvent, IpcCommand,
    IpcResponse, IpcStep,
};
use s_kvm::discovery::{advertisement, os_from_property, resolve_service, service_removed, trim_dots, DiscoveryEvent, SERVICE_TYPE};
use s_kvm::events::{InputEvent, InputEventKind, ModifierMask};
use s_kvm::gui::{
    connection_status, connection_status_text, daemon_reply, kvm_status, peer_status_from_daemon, peer_status_local,
    placeholder_peer, tray_action, PeerState, TrayAction,
};
use s_kvm::daemon::PeerStatusInfo;
use s_kvm::peers::{accept_hello, accept_welcome, heartbeat, hello, PeerTable};
use s_kvm::protocol::{ClipboardContentType, ControlMessage, DataMessage, InputMessage, ProtocolMessage, PROTOCOL_VERSION};
use s_kvm::types::{ConnectionState, FocusState, OsType, PeerCapabilities, PeerId, PeerInfo};

fn ev(dx: i32) -> InputEvent {
    InputEvent { timestamp_us: 1, kind: InputEventKind::MouseMoveRelative { dx, dy: 0 } }
}

fn peer(id: u128, host: &str) -> PeerInfo {
    PeerInfo { id: PeerId(id), hostname: host.to_string(), os: OsType::Linux, displays: vec![], capabilities: PeerCapabilities::default() }
}

#[test]
fn screen_leave_returns_focus_to_local_peer() {
    let local = PeerId(1);
    let acts = route_event(local, CoordinatorEvent::ControlReceived(PeerId(2), ControlMessage::ScreenLeave { display_id: 3 }));
    assert_eq!(acts.len(), 1);
    assert!(matches!(acts[0], CoordinatorAction::PublishFocus(f) if f == initial_focus(local)));
    let acts = route_event(local, CoordinatorEvent::ControlReceived(PeerId(2), ControlMessage::ScreenEnter { display_id: 3, x: 4, y: 5, modifiers: ModifierMask(0) }));
    assert!(matches!(acts[0], CoordinatorAction::PublishFocus(f) if f == FocusState { active_peer: PeerId(2), active_display: 3, cursor_x: 4, cursor_y: 5 }));
    assert!(route_event(local, CoordinatorEvent::ControlReceived(PeerId(2), ControlMessage::Heartbeat { timestamp_us: 1 })).is_empty());
}

#[test]
fn routing_of_input_clipboard_and_toggles() {
    let local = PeerId(1);
    let acts = route_event(local, CoordinatorEvent::IncomingInput(InputMessage::EventBatch(vec![ev(1), ev(2), ev(3)])));
    assert_eq!(acts.len(), 3);
    assert!(matches!(acts[2], CoordinatorAction::Inject(e) if e == ev(3)));
    let clip = DataMessage::ClipboardUpdate { content_type: ClipboardContentType::PlainText, data: vec![1] };
    assert!(route_event(local, CoordinatorEvent::DataReceived(local, clip.clone())).is_empty());
    let acts = route_event(local, CoordinatorEvent::DataReceived(PeerId(5), clip));
    assert!(matches!(acts[0], CoordinatorAction::ForwardClipboard(DataMessage::ClipboardUpdate { .. })));
    let fido = DataMessage::Fido2Request { request_id: 1, command: 2, payload: vec![] };
    assert!(route_event(local, CoordinatorEvent::DataReceived(PeerId(5), fido)).is_empty());
    assert!(matches!(route_event(local, CoordinatorEvent::KvmToggled(true))[0], CoordinatorAction::PublishKvmActive(true)));
    let acts = route_event(local, CoordinatorEvent::FocusChanged(initial_focus(PeerId(4))));
    assert_eq!(acts.len(), 2);
    assert!(route_event(local, CoordinatorEvent::OutgoingInput(InputMessage::Event(ev(1)))).is_empty());
}

#[test]
fn captured_input_forwarded_only_to_remote_focus() {
    let local = PeerId(1);
    assert!(forward_captured(ev(1), true, initial_focus(PeerId(2)), local).is_some());
    assert!(forward_captured(ev(1), false, initial_focus(PeerId(2)), local).is_none());
    assert!(forward_captured(ev(1), true, initial_focus(local), local).is_none());
    assert_eq!(clipboard_monitoring_change(true, false), (true, false));
    assert_eq!(clipboard_monitoring_change(false, true), (false, true));
    assert_eq!(clipboard_monitoring_change(true, true), (false, false));
}

#[test]
fn ipc_commands() {
    let cfg = AppConfig::with_identity(PeerId(1), "m".to_string());
    assert!(matches!(handle_ipc_command(IpcCommand::GetStatus, true, cfg.clone()),
        IpcStep::Reply { response: IpcResponse::Status { active: true, connected_peers: 0, uptime_seconds: 0 }, event: None }));
    assert!(matches!(handle_ipc_command(IpcCommand::StopKvm, true, cfg.clone()),
        IpcStep::Reply { response: IpcResponse::Success, event: Some(CoordinatorEvent::KvmToggled(false)) }));
    assert!(matches!(handle_ipc_command(IpcCommand::SaveConfig(cfg.clone()), true, cfg.clone()), IpcStep::Save(_)));
    assert!(matches!(handle_ipc_command(IpcCommand::GetPeers, true, cfg.clone()),
        IpcStep::Reply { response: IpcResponse::Peers(ref v), event: None } if v.is_empty()));
    assert!(matches!(handle_ipc_command(IpcCommand::GetConfig, false, cfg.clone()),
        IpcStep::Reply { response: IpcResponse::Config(ref c), .. } if c.machine_name == "m"));
    assert!(matches!(handle_ipc_command(IpcCommand::DisconnectPeer("x".into()), false, cfg.clone()),
        IpcStep::Reply { response: IpcResponse::Success, event: None }));
    assert!(matches!(ipc_after_save(cfg.clone(), Err("disk full".into())), (IpcResponse::Error(ref m), None) if m == "Failed to save config: disk full"));
    assert!(matches!(ipc_after_save(cfg, Ok(())), (IpcResponse::Success, Some(CoordinatorEvent::ConfigChanged(_)))));
    assert!(matches!(ipc_invalid_command("eof"), IpcResponse::Error(ref m) if m == "Invalid command: eof"));
}

#[test]
fn ipc_paths() {
    assert_eq!(socket_path(None), "/tmp/s-kvm-daemon.sock");
    assert_eq!(socket_path(Some("/run/user/1000")), "/run/user/1000/s-kvm-daemon.sock");
    assert_eq!(socket_path(Some("/run/")), "/run/s-kvm-daemon.sock");
    assert_eq!(pipe_name(), r"\\.\pipe\s-kvm-daemon");
}

#[test]
fn discovery_advertisement_and_resolution() {
    let id = PeerId(0x0123456789abcdef0123456789abcdef);
    let a = advertisement(id, "desk", 24800, "linux");
    assert_eq!(a.service_type, SERVICE_TYPE);
    assert_eq!(a.instance_name, "S-KVM desk");
    assert_eq!(a.host_name, "desk.");
    assert_eq!(a.properties[1], ("peer_id".to_string(), "01234567-89ab-cdef-0123-456789abcdef".to_string()));
    assert_eq!(a.properties[2].1, "Linux");
    assert_eq!(advertisement(id, "desk", 1, "haiku").properties[2].1, "Unknown");
    let peer_id_text = a.properties[1].1.clone();
    assert!(resolve_service("desk", "desk.", Some(&peer_id_text), None, None, None, 1).is_none());
    match resolve_service("laptop", &a.host_name, Some(&peer_id_text), Some("0.1.0"), Some("Windows"), Some("10.0.0.2".into()), 24800) {
        Some(DiscoveryEvent::PeerDiscovered { peer_id, hostname, address, port, os, version }) => {
            assert_eq!(peer_id, id);
            assert_eq!(hostname, "desk");
            assert_eq!(address, "10.0.0.2");
            assert_eq!(port, 24800);
            assert_eq!(os, OsType::Windows);
            assert_eq!(version, "0.1.0");
        }
        other => panic!("unexpected {:?}", other),
    }
    match resolve_service("laptop", "other..", Some("not-a-uuid"), None, None, None, 5) {
        Some(DiscoveryEvent::PeerDiscovered { peer_id, hostname, address, version, os, .. }) => {
            assert_eq!((peer_id.0 >> 76) & 0xf, 4);
            assert_eq!(hostname, "other");
            assert_eq!(address, "");
            assert_eq!(version, "unknown");
            assert_eq!(os, OsType::Linux);
        }
        other => panic!("unexpected {:?}", other),
    }
    assert!(matches!(service_removed("S-KVM desk._softkvm._tcp.local."), DiscoveryEvent::PeerLost { ref hostname } if hostname == "desk"));
    assert!(matches!(service_removed("S-KVM desk.lan._softkvm._tcp.local."), DiscoveryEvent::PeerLost { ref hostname } if hostname == "desk.lan"));
    assert!(matches!(service_removed("other._x._tcp.local."), DiscoveryEvent::PeerLost { ref hostname } if hostname == "other"));
    assert_eq!(trim_dots("a.b..."), "a.b");
    assert_eq!(os_from_property(Some("MacOS")), OsType::MacOS);
}

#[test]
fn handshake_messages() {
    let local = peer(1, "me");
    let (remote, welcome) = accept_hello(hello(peer(2, "you")), local.clone()).unwrap();
    assert_eq!(remote.hostname, "you");
    match welcome {
        ProtocolMessage::Control(ControlMessage::Welcome { protocol_version, peer_info }) => {
            assert_eq!(protocol_version, PROTOCOL_VERSION);
            assert_eq!(peer_info.hostname, "me");
        }
        other => panic!("unexpected {:?}", other),
    }
    assert_eq!(accept_hello(heartbeat(5), local.clone()).unwrap_err(), "Expected Hello message");
    assert_eq!(accept_welcome(hello(local)).unwrap_err(), "Expected Welcome message");
}

#[test]
fn peer_table_tracks_registrations() {
    let mut t = PeerTable::new();
    t.register(peer(1, "a"));
    t.register(peer(2, "b"));
    t.register(peer(1, "a2"));
    assert_eq!(t.len(), 2);
    let e = t.remove(PeerId(1)).unwrap();
    assert_eq!(e.info.hostname, "a2");
    assert_eq!(e.state, ConnectionState::Authenticated);
    assert!(!t.contains(PeerId(1)));
    assert!(t.contains(PeerId(2)));
    assert!(t.remove(PeerId(1)).is_none());
}

#[test]
fn peer_table_lists_every_peer() {
    let mut t = PeerTable::new();
    t.register(peer(1, "a"));
    t.register(peer(2, "b"));
    t.register(peer(1, "a2"));
    let mut names: Vec<String> = t.peer_infos().iter().map(|p| p.hostname.clone()).collect();
    names.sort();
    assert_eq!(names, vec!["a2".to_string(), "b".to_string()]);
    assert!(PeerTable::new().peer_infos().is_empty());
}

#[test]
fn gui_status_and_replies() {
    assert_eq!(connection_status_text(0), "disconnected");
    assert_eq!(connection_status_text(2), "connected (2 peers)");
    let states = vec![ConnectionState::Authenticated, ConnectionState::Active, ConnectionState::Connecting, ConnectionState::Connected];
    assert_eq!(connection_status(None, &states), "connected (3 peers)");
    assert_eq!(connection_status(Some(IpcResponse::Status { active: true, connected_peers: 0, uptime_seconds: 9 }), &states), "disconnected");
    let k = kvm_status(None, true, &states, 42);
    assert!(k.active && k.active_peer.is_none());
    assert_eq!(k.connected_peers, 2);
    assert_eq!(k.uptime_seconds, 42);
    let k = kvm_status(Some(IpcResponse::Status { active: false, connected_peers: 5, uptime_seconds: 7 }), true, &states, 42);
    assert_eq!((k.active, k.connected_peers, k.uptime_seconds), (false, 5, 7));
    assert!(daemon_reply(IpcResponse::Success).is_ok());
    assert_eq!(daemon_reply(IpcResponse::Error("nope".into())).unwrap_err(), "nope");
    assert_eq!(daemon_reply(IpcResponse::Peers(vec![])).unwrap_err(), "Unexpected daemon response");
    assert_eq!(tray_action("toggle"), TrayAction::ToggleKvm);
    assert_eq!(tray_action("quit"), TrayAction::Quit);
    assert_eq!(tray_action("other"), TrayAction::Nothing);
}

#[test]
fn gui_peer_views() {
    let s = peer_status_from_daemon(PeerStatusInfo { id: "x".into(), hostname: "h".into(), os: "Linux".into(), state: ConnectionState::Active, latency_ms_bits: Some(3.5f64.to_bits()) });
    assert_eq!(s.latency_ms_bits.map(f64::from_bits), Some(3.5));
    assert!(s.displays.is_empty());
    let l = peer_status_local(PeerState { info: peer(0x0123456789abcdef0123456789abcdef, "h"), connection_state: ConnectionState::Connected, latency_ms_bits: None, last_seen: 0 });
    assert_eq!(l.id, "01234567-89ab-cdef-0123-456789abcdef");
    assert_eq!(l.os, "Linux");
    let p = placeholder_peer("10.0.0.9".into());
    assert_eq!(p.info.hostname, "10.0.0.9");
    assert_eq!(p.connection_state, ConnectionState::Connecting);
}
