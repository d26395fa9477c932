use s_kvm::clipboard::{
    simple_hash, ClipboardApply, ClipboardError, ClipboardManager, ClipboardSyncMode, FNV_OFFSET,
};
use s_kvm::clock::{micros_or_zero, nanos_or_zero};
use s_kvm::config::AppConfig;
use s_kvm::events::{EventClock, InputEvent, InputEventKind, ModifierMask};
use s_kvm::platform::{current_os, detect_display_server, hostname_or_unknown, is_xwayland, DisplayServer};
use s_kvm::protocol::{ClipboardContentType, DataMessage, VideoCodec};
use s_kvm::types::{OsType, PeerCapabilities, PeerId};

#[test]
fn modifier_mask_operations() {
    let mut m = ModifierMask::default();
    assert_eq!(m.0, 0);
    assert!(!m.has(ModifierMask::SHIFT));
    m.set(ModifierMask::SHIFT);
    assert!(m.has(ModifierMask::SHIFT));
    assert!(!m.has(ModifierMask::CTRL));
    m.set(ModifierMask::CTRL);
    assert!(m.has(ModifierMask::SHIFT));
    assert!(m.has(ModifierMask::CTRL));
    m.clear(ModifierMask::SHIFT);
    assert!(!m.has(ModifierMask::SHIFT));
    assert!(m.has(ModifierMask::CTRL));
}

#[test]
fn modifier_set_then_clear_restores_mask() {
    let mut m = ModifierMask(ModifierMask::ALT);
    m.set(ModifierMask::META);
    m.set(ModifierMask::META);
    assert_eq!(m.0, ModifierMask::ALT | ModifierMask::META);
    m.clear(ModifierMask::META);
    m.clear(ModifierMask::META);
    assert_eq!(m.0, ModifierMask::ALT);
}

#[test]
fn input_event_keeps_kind() {
    let kind = InputEventKind::MouseMoveRelative { dx: 10, dy: -5 };
    let e = InputEvent::new(kind);
    assert_eq!(e.kind, kind);
}

#[test]
fn default_config_has_valid_defaults() {
    let config = AppConfig::default();
    assert_eq!(config.network.listen_port, 24800);
    assert!(config.network.mdns_enabled);
    assert_eq!(config.network.mdns_service_type, "_softkvm._tcp.local.");
    assert!(config.input.raw_mouse_deltas);
    assert_eq!(config.input.edge_switch_delay_ms, 50);
    assert!(!config.video.enabled);
    assert_eq!(config.video.max_fps, 60);
    assert!(!config.audio.enabled);
    assert_eq!(config.audio.bitrate_kbps, 128);
    assert!(config.security.require_pairing);
    assert_eq!(config.hotkeys.toggle_active, "Ctrl+Alt+K");
    assert_eq!(config.hotkeys.switch_screen.len(), 4);
}

#[test]
fn peer_id_is_unique_per_default() {
    let c1 = AppConfig::default();
    let c2 = AppConfig::default();
    assert_ne!(c1.peer_id.0, c2.peer_id.0);
}

#[test]
fn hostname_is_populated() {
    let config = AppConfig::default();
    assert!(!config.machine_name.is_empty());
    assert_ne!(config.machine_name, "unknown");
}

#[test]
fn config_with_identity_holds_every_default() {
    let c = AppConfig::with_identity(PeerId(7), "box".to_string());
    assert_eq!(c.peer_id, PeerId(7));
    assert_eq!(c.machine_name, "box");
    assert_eq!(c.input.edge_dead_zone, 2);
    assert_eq!(c.video.target_bitrate_kbps, 20_000);
    assert_eq!(c.video.codec, VideoCodec::H264);
    assert_eq!(c.audio.frame_size_ms, 10);
    assert!(c.security.cert_path.is_none());
    assert_eq!(c.hotkeys.switch_screen, vec!["Ctrl+Alt+1", "Ctrl+Alt+2", "Ctrl+Alt+3", "Ctrl+Alt+4"]);
    assert_eq!(c.hotkeys.lock_screen, "Ctrl+Alt+L");
}

#[test]
fn peer_id_text_is_hyphenated_lowercase() {
    let p = PeerId(0x0123456789abcdef0123456789abcdef);
    assert_eq!(p.to_string(), "01234567-89ab-cdef-0123-456789abcdef");
}

#[test]
fn fresh_peer_id_is_version_4() {
    let p = PeerId::new();
    assert_eq!((p.0 >> 76) & 0xf, 4);
    assert_eq!((p.0 >> 62) & 0x3, 2);
}

#[test]
fn default_capabilities() {
    let c = PeerCapabilities::default();
    assert!(c.input_forwarding && c.clipboard_sharing);
    assert!(!c.display_streaming && !c.audio_sharing && !c.fido2_forwarding);
    assert_eq!(OsType::MacOS.name(), "MacOS");
}

#[test]
fn display_server_detection() {
    assert_eq!(detect_display_server("linux", true, true), DisplayServer::Wayland);
    assert_eq!(detect_display_server("linux", false, true), DisplayServer::X11);
    assert_eq!(detect_display_server("linux", false, false), DisplayServer::Unknown);
    assert_eq!(detect_display_server("windows", false, false), DisplayServer::Windows);
    assert_eq!(detect_display_server("macos", true, true), DisplayServer::Unknown);
    assert!(is_xwayland(true, true));
    assert!(!is_xwayland(true, false));
    assert_eq!(DisplayServer::Wayland.to_string(), "Wayland");
}

#[test]
fn os_for_target() {
    assert_eq!(current_os("linux"), OsType::Linux);
    assert_eq!(current_os("windows"), OsType::Windows);
    assert_eq!(current_os("macos"), OsType::MacOS);
    assert_eq!(current_os("freebsd"), OsType::Linux);
    assert_eq!(hostname_or_unknown(None), "unknown");
    assert_eq!(hostname_or_unknown(Some("h1".to_string())), "h1");
}

#[test]
fn fnv_hash_values() {
    assert_eq!(simple_hash(""), FNV_OFFSET);
    assert_eq!(simple_hash("a"), 0xaf63dc4c8601ec8c);
    assert_eq!(simple_hash("foobar"), 0x85944171f73967e8);
}

#[test]
fn clipboard_change_sent_once() {
    let mut c = ClipboardManager::new(1024, ClipboardSyncMode::default());
    assert_eq!(c.sync_mode(), ClipboardSyncMode::OnFocusChange);
    let first = c.poll_local(Some("hello".to_string()));
    match first {
        Some(DataMessage::ClipboardUpdate { content_type: ClipboardContentType::PlainText, data }) => {
            assert_eq!(data, b"hello".to_vec())
        }
        other => panic!("unexpected {:?}", other),
    }
    assert_eq!(c.last_hash(), simple_hash("hello"));
    assert!(c.poll_local(Some("hello".to_string())).is_none());
    assert!(c.poll_local(Some(String::new())).is_none());
    assert!(c.poll_local(None).is_none());
}

#[test]
fn clipboard_remote_update_not_echoed() {
    let mut c = ClipboardManager::new(1024, ClipboardSyncMode::OnChange);
    match c.handle_remote_update(ClipboardContentType::PlainText, b"remote".to_vec()) {
        Ok(ClipboardApply::SetText(t)) => assert_eq!(t, "remote"),
        other => panic!("unexpected {:?}", other),
    }
    assert!(c.poll_local(Some("remote".to_string())).is_none());
    assert!(c.poll_local(Some("changed".to_string())).is_some());
}

#[test]
fn clipboard_limits_and_errors() {
    let mut c = ClipboardManager::new(4, ClipboardSyncMode::OnChange);
    assert!(matches!(c.handle_remote_update(ClipboardContentType::PlainText, vec![b'x'; 5]), Err(ClipboardError::TooLarge(5, 4))));
    assert!(c.poll_local(Some("12345".to_string())).is_none());
    assert!(matches!(c.sync_now(Some("12345".to_string())), Err(ClipboardError::TooLarge(5, 4))));
    match c.handle_remote_update(ClipboardContentType::Html, vec![0xff]) {
        Err(ClipboardError::InvalidData(m)) => assert_eq!(m, "invalid utf-8 sequence of 1 bytes from index 0"),
        other => panic!("unexpected {:?}", other),
    }
    assert!(matches!(c.handle_remote_update(ClipboardContentType::Html, b"<b>".to_vec()), Ok(ClipboardApply::SetHtml(ref h)) if h == "<b>"));
    assert!(matches!(c.handle_remote_update(ClipboardContentType::Image, vec![1]), Ok(ClipboardApply::Ignore)));
    assert!(matches!(c.sync_now(Some("abc".to_string())), Ok(Some(_))));
    assert!(matches!(c.sync_now(Some("abc".to_string())), Ok(None)));
}

#[test]
fn clipboard_monitoring_flag() {
    let mut c = ClipboardManager::new(10, ClipboardSyncMode::Disabled);
    assert!(!c.is_active());
    c.start_monitoring();
    assert!(c.is_active());
    c.stop_monitoring();
    assert!(!c.is_active());
    assert_eq!(c.max_size(), 10);
}

#[test]
fn clock_readings_convert() {
    assert_eq!(micros_or_zero(None), 0);
    assert_eq!(micros_or_zero(Some(1_700_000_000_000_000)), 1_700_000_000_000_000);
    assert_eq!(micros_or_zero(Some((1u128 << 64) + 5)), 5);
    assert_eq!(nanos_or_zero(None), 0);
    assert_eq!(nanos_or_zero(Some(42)), 42);
}

#[test]
fn event_keeps_given_timestamp() {
    let e = InputEvent::with_timestamp(77, InputEventKind::MouseMoveRelative { dx: 1, dy: 2 });
    assert_eq!(e.timestamp_us, 77);
    assert!(matches!(e.kind, InputEventKind::MouseMoveRelative { dx: 1, dy: 2 }));
}

#[test]
fn event_clock_never_goes_back() {
    let mut c = EventClock::new();
    let k = InputEventKind::MouseMoveRelative { dx: 0, dy: 0 };
    assert_eq!(c.stamp_at(100, k).timestamp_us, 100);
    assert_eq!(c.stamp_at(90, k).timestamp_us, 100);
    assert_eq!(c.stamp_at(120, k).timestamp_us, 120);
    let a = c.stamp(k).timestamp_us;
    let b = c.stamp(k).timestamp_us;
    assert!(a >= 120 && b >= a);
}

#[test]
fn hash_of_concatenation_continues() {
    let mut h = simple_hash("clip");
    for b in "board".bytes() {
        h = (h ^ b as u64).wrapping_mul(0x100000001b3);
    }
    assert_eq!(simple_hash("clipboard"), h);
}
