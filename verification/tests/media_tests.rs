use s_kvm::audio::{
    capture_frame_samples, crossfade_samples, device_not_found, encoder_frame_size, frame_samples, is_loopback_name,
    packet_lost, to_opus_channels, AudioError, AudioPipelineConfig, OpusChannels, PacketSequencer,
};
use s_kvm::display::{default_display, drm_connector_name, drm_status_connected, parse_first_mode, parse_u32, windows_monitor_display, display_backend, DisplayBackend, monitor_name};
use s_kvm::platform::DisplayServer;
use s_kvm::protocol::VideoCodec;
use s_kvm::scripting::{
    event_handler, handler_arity, handler_defined, handler_outcome, is_script_path, str_contains, HandlerArgs, ScriptDisplayInfo, ScriptError,
    ScriptEvent, ScriptPeerInfo,
};
use s_kvm::types::{DisplayInfo, OsType, PeerCapabilities, PeerId, PeerInfo, REFRESH_60HZ_BITS, SCALE_ONE_BITS};
use s_kvm::video::{
    frame_interval_us, solid_frame, DummyCapture, EncoderConfig, PipeWireCapture, PixelFormat, RawDecoder,
    RawEncoder, VideoError, VideoFrame, RAW_HEADER_SIZE,
};

#[test]
fn pipewire_capture_returns_not_implemented() {
    assert!(PipeWireCapture::new().is_err());
}

#[test]
fn raw_encoder_roundtrip_metadata() {
    let config = EncoderConfig { codec: VideoCodec::H264, width: 4, height: 4, ..Default::default() };
    let mut enc = RawEncoder::new(config);
    let frame = VideoFrame { data: vec![0u8; 4 * 4 * 4], width: 4, height: 4, format: PixelFormat::Bgra, timestamp_us: 0, frame_number: 0, dirty_rects: vec![] };
    let packets = enc.encode(&frame).unwrap();
    assert_eq!(packets.len(), 1);
    assert!(packets[0].is_keyframe);
    assert_eq!(packets[0].data.len(), RAW_HEADER_SIZE + 4 * 4 * 4);
}

#[test]
fn raw_encoder_keyframe_interval() {
    let config = EncoderConfig::default();
    let mut enc = RawEncoder::new(config);
    let frame = VideoFrame { data: vec![0u8; 1920 * 1080 * 4], width: 1920, height: 1080, format: PixelFormat::Bgra, timestamp_us: 0, frame_number: 0, dirty_rects: vec![] };
    let p = enc.encode(&frame).unwrap();
    assert!(p[0].is_keyframe);
    let p = enc.encode(&frame).unwrap();
    assert!(!p[0].is_keyframe);
    enc.force_keyframe();
    let p = enc.encode(&frame).unwrap();
    assert!(p[0].is_keyframe);
}

#[test]
fn raw_encode_decode_roundtrip() {
    let config = EncoderConfig { codec: VideoCodec::H264, width: 8, height: 8, ..Default::default() };
    let mut enc = RawEncoder::new(config);
    let mut dec = RawDecoder::new();
    let original = VideoFrame { data: vec![42u8; 8 * 8 * 4], width: 8, height: 8, format: PixelFormat::Bgra, timestamp_us: 1000, frame_number: 0, dirty_rects: vec![] };
    let packets = enc.encode(&original).unwrap();
    let frames = dec.decode(&packets[0]).unwrap();
    assert_eq!(frames.len(), 1);
    assert_eq!(frames[0].width, 8);
    assert_eq!(frames[0].height, 8);
    assert_eq!(frames[0].format, PixelFormat::Bgra);
    assert_eq!(frames[0].data, original.data);
}

#[test]
fn raw_decoder_rejects_short_packets() {
    let config = EncoderConfig { codec: VideoCodec::H264, width: 2, height: 2, ..Default::default() };
    let mut enc = RawEncoder::new(config);
    let frame = VideoFrame { data: vec![1u8; 16], width: 2, height: 2, format: PixelFormat::Bgra, timestamp_us: 0, frame_number: 0, dirty_rects: vec![] };
    let mut p = enc.encode(&frame).unwrap().remove(0);
    p.data.truncate(RAW_HEADER_SIZE + 10);
    let mut dec = RawDecoder::new();
    assert_eq!(dec.decode(&p).unwrap_err(), VideoError::TooShort { got: 10, expected: 16 });
    p.data.truncate(3);
    assert_eq!(dec.decode(&p).unwrap_err(), VideoError::InvalidHeader);
}

#[test]
fn dummy_lists_one_display() {
    let cap = DummyCapture::new(1920, 1080);
    let displays = cap.displays();
    assert_eq!(displays.len(), 1);
    assert_eq!(displays[0].width, 1920);
    assert_eq!(f64::from_bits(displays[0].refresh_rate_bits), 60.0);
    assert_eq!(f64::from_bits(displays[0].scale_factor_bits), 1.0);
}

#[test]
fn dummy_frames() {
    let f = solid_frame(2, 1, 10, 20, 30, 5, 6);
    assert_eq!(f.data, vec![30, 20, 10, 255, 30, 20, 10, 255]);
    assert_eq!(f.format, PixelFormat::Bgra);
    assert_eq!(frame_interval_us(0), 1_000_000);
    assert_eq!(frame_interval_us(30), 33_333);
}

#[test]
fn script_event_dispatch() {
    let (name, args) = event_handler(&ScriptEvent::ScreenEnter { peer_name: "w".into(), display_id: 3 });
    assert_eq!(name, "on_screen_enter");
    assert!(matches!(args, HandlerArgs::PeerAndDisplay(ref p, 3) if p == "w"));
    let (name, args) = event_handler(&ScriptEvent::PeerDisconnected { peer_name: "w".into() });
    assert_eq!(name, "on_peer_disconnected");
    assert!(matches!(args, HandlerArgs::Peer(ref p) if p == "w"));
    assert!(handler_outcome("on_peer_connected", false, Ok(())).is_ok());
    assert!(matches!(handler_outcome("on_x", true, Err("boom".into())), Err(ScriptError::Runtime(ref m)) if m == "on_x: boom"));
    assert!(matches!(
        handler_outcome("on_x", true, Err("Function not found: helper ()".into())),
        Err(ScriptError::Runtime(ref m)) if m == "on_x: Function not found: helper ()"
    ));
    assert!(handler_outcome("on_x", true, Ok(())).is_ok());
}

#[test]
fn script_views() {
    let p = PeerInfo { id: PeerId(1), hostname: "box".into(), os: OsType::Windows, displays: vec![], capabilities: PeerCapabilities::default() };
    let s = ScriptPeerInfo::from_peer(&p);
    assert_eq!(s.os, "Windows");
    assert_eq!(s.display_count, 0);
    assert_eq!(s.to_string(), "Peer(box)");
    let d = DisplayInfo { id: 2, name: "DP-1".into(), x: 0, y: 0, width: 2560, height: 1440, refresh_rate_bits: REFRESH_60HZ_BITS, scale_factor_bits: SCALE_ONE_BITS, is_primary: false };
    let sd = ScriptDisplayInfo::from_display(&d);
    assert_eq!(sd.to_string(), "Display(DP-1, 2560x1440)");
    assert!(is_script_path("/etc/s-kvm/scripts/a.rhai"));
    assert!(!is_script_path("/etc/s-kvm/scripts/.rhai"));
    assert!(!is_script_path("a.rhai.bak"));
    assert!(str_contains("hello world", "o w"));
    assert!(!str_contains("hello", "hello!"));
}

#[test]
fn audio_sizes_and_numbering() {
    let c = AudioPipelineConfig::default();
    assert_eq!((c.sample_rate, c.channels, c.frame_duration_ms, c.jitter_buffer_ms), (48000, 2, 10, 15));
    assert_eq!(encoder_frame_size(48000, 10), 480);
    assert_eq!(frame_samples(480, 2), 960);
    assert_eq!(capture_frame_samples(48000, 2, 20), 1920);
    assert_eq!(crossfade_samples(48000, 2, 50), 4800);
    assert_eq!(to_opus_channels(1).unwrap(), OpusChannels::Mono);
    assert!(matches!(to_opus_channels(6), Err(AudioError::FormatNotSupported(ref m)) if m == "opus supports 1 or 2 channels, got 6"));
    assert!(!packet_lost(None, 9));
    assert!(!packet_lost(Some(4), 5));
    assert!(packet_lost(Some(4), 7));
    assert!(!packet_lost(Some(u64::MAX), 0));
    let mut s = PacketSequencer::new(10);
    let p0 = s.packet(vec![1], 100);
    let p1 = s.packet(vec![2], 200);
    assert_eq!((p0.sequence, p1.sequence, p1.duration_us), (0, 1, 10_000));
    assert!(is_loopback_name("Monitor of Built-in Audio"));
    assert!(is_loopback_name("LOOPBACK device"));
    assert!(!is_loopback_name("USB Microphone"));
    assert!(matches!(device_not_found("mic"), AudioError::DeviceNotFound(ref m) if m == "input device 'mic' not found"));
}

#[test]
fn display_helpers() {
    let d = default_display();
    assert_eq!((d.width, d.height, d.name.as_str()), (1920, 1080, "Primary Display"));
    assert_eq!(parse_first_mode("2560x1440\n1920x1080\n"), (2560, 1440));
    assert_eq!(parse_first_mode(" 1280x720i \r\n"), (1280, 720));
    assert_eq!(parse_first_mode("axb"), (1920, 1080));
    assert_eq!(parse_first_mode("garbage"), (1920, 1080));
    assert_eq!(parse_first_mode(""), (1920, 1080));
    assert_eq!(parse_u32("+42"), Some(42));
    assert_eq!(parse_u32("4294967295"), Some(u32::MAX));
    assert_eq!(parse_u32("4294967296"), None);
    assert_eq!(parse_u32("-1"), None);
    assert_eq!(drm_connector_name("card0-HDMI-A-1"), Some("HDMI-A-1".to_string()));
    assert_eq!(drm_connector_name("renderD128"), None);
    assert_eq!(drm_connector_name("card0"), None);
    assert!(drm_status_connected("connected\n"));
    assert!(!drm_status_connected("disconnected"));
    assert_eq!(monitor_name(None, 3), "Monitor 3");
    assert_eq!(display_backend("linux", DisplayServer::X11), DisplayBackend::X11);
    assert_eq!(display_backend("linux", DisplayServer::Unknown), DisplayBackend::Drm);
    assert_eq!(display_backend("windows", DisplayServer::Windows), DisplayBackend::Windows);
    let name: Vec<u16> = "\\\\.\\DISPLAY1".encode_utf16().chain([0u16, 65, 66]).collect();
    let w = windows_monitor_display(1, -1920, 0, 0, 1080, 1, &name, REFRESH_60HZ_BITS);
    assert_eq!(w.name, "\\\\.\\DISPLAY1");
    assert_eq!((w.x, w.width, w.height), (-1920, 1920, 1080));
    assert!(w.is_primary);
}

#[test]
fn missing_event_handler_is_ok() {
    let event = ScriptEvent::PeerConnected { peer_name: "test".into() };
    let (name, _args) = event_handler(&event);
    assert!(handler_outcome(name, false, Ok(())).is_ok());
}

#[test]
fn handler_lookup_by_name_and_arity() {
    let fns = vec![("on_peer_connected".to_string(), 1usize), ("helper".to_string(), 0usize)];
    assert!(handler_defined(&fns, "on_peer_connected", 1));
    assert!(!handler_defined(&fns, "on_peer_connected", 2));
    assert!(!handler_defined(&fns, "on_screen_enter", 2));
    assert_eq!(handler_arity(&HandlerArgs::Peer("a".into())), 1);
    assert_eq!(handler_arity(&HandlerArgs::PeerAndDisplay("a".into(), 1)), 2);
}

#[test]
fn status_is_trimmed_of_unicode_white_space() {
    assert!(drm_status_connected(" \t connected\u{a0}\u{3000}\r\n"));
    assert!(!drm_status_connected("con nected"));
    assert!(!drm_status_connected(""));
    assert!(!drm_status_connected("\u{200b}connected"));
}
