//! Application configuration and its defaults.
//!
//! Locating, reading and writing the configuration file (TOML) is done by
//! the program around this crate. Paths are held as text.
use vstd::prelude::*;
use crate::platform::hostname;
use crate::protocol::VideoCodec;
use crate::types::{PeerId, ScreenLink, is_v4_uuid};

verus! {

/// Network settings.
#[derive(Debug, Clone)]
pub struct NetworkConfig {
    /// Port for the QUIC listener.
    pub listen_port: u16,
    /// Enable mDNS discovery.
    pub mdns_enabled: bool,
    /// Service type for mDNS.
    pub mdns_service_type: String,
    /// Manually configured peers.
    pub static_peers: Vec<StaticPeer>,
}

/// A manually configured peer.
#[derive(Debug, Clone)]
pub struct StaticPeer {
    pub address: String,
    pub port: u16,
    pub name: Option<String>,
}

/// Input settings.
#[derive(Debug, Clone, Copy, PartialEq, Eq, Structural)]
pub struct InputConfig {
    /// Whether to forward raw mouse deltas.
    pub raw_mouse_deltas: bool,
    /// Edge switch delay in milliseconds (debounce).
    pub edge_switch_delay_ms: u32,
    /// Dead zone in pixels at screen edges.
    pub edge_dead_zone: u32,
}

/// Video streaming settings.
#[derive(Debug, Clone, Copy, PartialEq, Eq, Structural)]
pub struct VideoConfig {
    /// Enable display streaming.
    pub enabled: bool,
    /// Maximum FPS.
    pub max_fps: u32,
    /// Target bitrate in kbps.
    pub target_bitrate_kbps: u32,
    /// Preferred codec.
    pub codec: VideoCodec,
}

/// Audio settings.
#[derive(Debug, Clone, Copy, PartialEq, Eq, Structural)]
pub struct AudioConfig {
    /// Enable audio sharing.
    pub enabled: bool,
    /// Opus bitrate in kbps.
    pub bitrate_kbps: u32,
    /// Frame size in ms (5, 10, or 20).
    pub frame_size_ms: u32,
}

/// Security settings.
#[derive(Debug, Clone)]
pub struct SecurityConfig {
    /// Path to the TLS certificate.
    pub cert_path: Option<String>,
    /// Path to the TLS private key.
    pub key_path: Option<String>,
    /// Trusted peer fingerprints (trust on first use).
    pub trusted_fingerprints: Vec<TrustedFingerprint>,
    /// Require pairing for new connections.
    pub require_pairing: bool,
}

/// A peer fingerprint trusted on first use.
#[derive(Debug, Clone)]
pub struct TrustedFingerprint {
    pub peer_id: PeerId,
    pub fingerprint: String,
    pub first_seen: String,
    pub hostname: String,
}

/// Hotkey bindings.
#[derive(Debug, Clone)]
pub struct HotkeyConfig {
    /// Toggle KVM active/inactive.
    pub toggle_active: String,
    /// Switch to a specific screen (by index).
    pub switch_screen: Vec<String>,
    /// Lock to the current screen.
    pub lock_screen: String,
}

/// Top-level application configuration.
#[derive(Debug, Clone)]
pub struct AppConfig {
    /// This machine's peer ID (generated once, persisted).
    pub peer_id: PeerId,
    /// Human-readable machine name.
    pub machine_name: String,
    pub network: NetworkConfig,
    /// Screen layout links.
    pub screen_links: Vec<ScreenLink>,
    pub input: InputConfig,
    pub video: VideoConfig,
    pub audio: AudioConfig,
    pub security: SecurityConfig,
    pub hotkeys: HotkeyConfig,
}

/// Whether a configuration holds the default settings (every setting but
/// the identity and the machine name).
pub open spec fn has_default_settings(c: AppConfig) -> bool {
    &&& c.network.listen_port == 24800
    &&& c.network.mdns_enabled
    &&& c.network.mdns_service_type@ == "_softkvm._tcp.local."@
    &&& c.network.static_peers@.len() == 0
    &&& c.screen_links@.len() == 0
    &&& c.input == (InputConfig { raw_mouse_deltas: true, edge_switch_delay_ms: 50, edge_dead_zone: 2 })
    &&& c.video == (VideoConfig { enabled: false, max_fps: 60, target_bitrate_kbps: 20_000, codec: VideoCodec::H264 })
    &&& c.audio == (AudioConfig { enabled: false, bitrate_kbps: 128, frame_size_ms: 10 })
    &&& c.security.cert_path is None
    &&& c.security.key_path is None
    &&& c.security.trusted_fingerprints@.len() == 0
    &&& c.security.require_pairing
    &&& c.hotkeys.toggle_active@ == "Ctrl+Alt+K"@
    &&& c.hotkeys.switch_screen@.len() == 4
    &&& c.hotkeys.switch_screen@[0]@ == "Ctrl+Alt+1"@
    &&& c.hotkeys.switch_screen@[1]@ == "Ctrl+Alt+2"@
    &&& c.hotkeys.switch_screen@[2]@ == "Ctrl+Alt+3"@
    &&& c.hotkeys.switch_screen@[3]@ == "Ctrl+Alt+4"@
    &&& c.hotkeys.lock_screen@ == "Ctrl+Alt+L"@
}

impl AppConfig {
    /// The default settings for a given identity and machine name.
    pub fn with_identity(peer_id: PeerId, machine_name: String) -> (c: Self)
        ensures
            c.peer_id == peer_id,
            c.machine_name@ == machine_name@,
            has_default_settings(c),
    {
        let mut switch_screen: Vec<String> = Vec::new();
        switch_screen.push(String::from_str("Ctrl+Alt+1"));
        switch_screen.push(String::from_str("Ctrl+Alt+2"));
        switch_screen.push(String::from_str("Ctrl+Alt+3"));
        switch_screen.push(String::from_str("Ctrl+Alt+4"));
        AppConfig {
            peer_id,
            machine_name,
            network: NetworkConfig {
                listen_port: 24800,
                mdns_enabled: true,
                mdns_service_type: String::from_str("_softkvm._tcp.local."),
                static_peers: Vec::new(),
            },
            screen_links: Vec::new(),
            input: InputConfig { raw_mouse_deltas: true, edge_switch_delay_ms: 50, edge_dead_zone: 2 },
            video: VideoConfig { enabled: false, max_fps: 60, target_bitrate_kbps: 20_000, codec: VideoCodec::H264 },
            audio: AudioConfig { enabled: false, bitrate_kbps: 128, frame_size_ms: 10 },
            security: SecurityConfig {
                cert_path: None,
                key_path: None,
                trusted_fingerprints: Vec::new(),
                require_pairing: true,
            },
            hotkeys: HotkeyConfig {
                toggle_active: String::from_str("Ctrl+Alt+K"),
                switch_screen,
                lock_screen: String::from_str("Ctrl+Alt+L"),
            },
        }
    }
}

impl Default for AppConfig {
    /// The default settings, with a fresh random peer ID and this machine's
    /// host name (`"unknown"` when it cannot be read).
    fn default() -> (c: Self)
        ensures
            is_v4_uuid(c.peer_id.0),
            has_default_settings(c),
    {
        AppConfig::with_identity(PeerId::new(), hostname())
    }
}

} // verus!
