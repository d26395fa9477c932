//! Core types used across all subsystems: peers, displays, screen links and
//! focus.
use vstd::prelude::*;
use vstd::arithmetic::power::pow;
use crate::text::lower_hex_digit;

verus! {

/// The `i`-th hexadecimal digit (from the most significant, `0 <= i < 32`)
/// of a 128-bit value.
pub open spec fn nibble(v: u128, i: int) -> nat {
    ((v as nat) / (pow(16, (31 - i) as nat) as nat)) % 16
}

/// The 32 lower-case hexadecimal digits of a 128-bit value.
pub open spec fn uuid_hex(v: u128) -> Seq<char> {
    Seq::new(32, |i: int| lower_hex_digit(nibble(v, i)))
}

/// The hyphenated text of a UUID: 8-4-4-4-12 lower-case hexadecimal digits.
pub open spec fn uuid_text(v: u128) -> Seq<char> {
    let h = uuid_hex(v);
    h.subrange(0, 8) + seq!['-'] + h.subrange(8, 12) + seq!['-'] + h.subrange(12, 16) + seq!['-']
        + h.subrange(16, 20) + seq!['-'] + h.subrange(20, 32)
}

/// Whether a 128-bit value is a random (version 4, RFC 4122 variant) UUID:
/// the version nibble is 4 and the two variant bits are `10`.
pub open spec fn is_v4_uuid(v: u128) -> bool {
    &&& (v >> 76u128) & 0xf == 4
    &&& (v >> 62u128) & 0x3 == 2
}

/// A fresh random UUID (`uuid::Uuid::new_v4`), read as a big-endian 128-bit
/// integer (`as_u128`). The source masks a random value so that the version
/// nibble is 4 and the variant bits are `10`; the other bits are random and
/// nothing is stated of them.
#[verifier::external_body]
fn uuid_new_v4() -> (v: u128)
    ensures
        is_v4_uuid(v),
{
    uuid::Uuid::new_v4().as_u128()
}

/// The `Display` text of `uuid::Uuid::from_u128(v)`: the hyphenated form in
/// lower-case hexadecimal.
#[verifier::external_body]
fn uuid_hyphenated(v: u128) -> (s: String)
    ensures
        s@ == uuid_text(v),
{
    uuid::Uuid::from_u128(v).to_string()
}

/// Unique identifier for a peer in the KVM network: a UUID, held as its
/// big-endian 128-bit value.
#[derive(Debug, Clone, Copy, PartialEq, Eq, Hash, Structural)]
pub struct PeerId(pub u128);

impl PeerId {
    /// A fresh random (version 4) identifier.
    pub fn new() -> (p: Self)
        ensures
            is_v4_uuid(p.0),
    {
        PeerId(uuid_new_v4())
    }

    /// The hyphenated lower-case text of the identifier.
    pub fn to_string(&self) -> (s: String)
        ensures
            s@ == uuid_text(self.0),
    {
        uuid_hyphenated(self.0)
    }
}

impl Default for PeerId {
    fn default() -> (p: Self)
        ensures
            is_v4_uuid(p.0),
    {
        Self::new()
    }
}

/// Operating system type.
#[derive(Debug, Clone, Copy, PartialEq, Eq, Structural)]
pub enum OsType {
    Linux,
    Windows,
    MacOS,
}

/// The `Debug` text of an operating system type.
pub open spec fn os_type_text(os: OsType) -> Seq<char> {
    match os {
        OsType::Linux => "Linux"@,
        OsType::Windows => "Windows"@,
        OsType::MacOS => "MacOS"@,
    }
}

impl OsType {
    /// The name of the variant, as `Debug` writes it.
    pub fn name(&self) -> (s: &'static str)
        ensures
            s@ == os_type_text(*self),
    {
        proof {
            reveal_strlit("Linux");
            reveal_strlit("Windows");
            reveal_strlit("MacOS");
        }
        match self {
            OsType::Linux => "Linux",
            OsType::Windows => "Windows",
            OsType::MacOS => "MacOS",
        }
    }
}

/// Information about a display/monitor. The refresh rate (Hz) and the scale
/// factor are floating-point numbers; they are carried here as the bits of
/// their IEEE-754 doubles (`f64::to_bits`), and nothing in this crate
/// computes with them.
#[derive(Debug, Clone)]
pub struct DisplayInfo {
    pub id: u32,
    pub name: String,
    pub x: i32,
    pub y: i32,
    pub width: u32,
    pub height: u32,
    pub refresh_rate_bits: u64,
    pub scale_factor_bits: u64,
    pub is_primary: bool,
}

/// The IEEE-754 bits of 60.0 (the default refresh rate, in Hz).
pub const REFRESH_60HZ_BITS: u64 = 0x404E_0000_0000_0000;

/// The IEEE-754 bits of 1.0 (the default scale factor).
pub const SCALE_ONE_BITS: u64 = 0x3FF0_0000_0000_0000;

/// What a peer supports.
#[derive(Debug, Clone, Copy, PartialEq, Eq, Structural)]
pub struct PeerCapabilities {
    pub input_forwarding: bool,
    pub display_streaming: bool,
    pub audio_sharing: bool,
    pub clipboard_sharing: bool,
    pub fido2_forwarding: bool,
}

impl Default for PeerCapabilities {
    /// Input forwarding and clipboard sharing on; display streaming, audio
    /// sharing and FIDO2 forwarding off.
    fn default() -> (c: Self)
        ensures
            c == (PeerCapabilities {
                input_forwarding: true,
                display_streaming: false,
                audio_sharing: false,
                clipboard_sharing: true,
                fido2_forwarding: false,
            }),
    {
        PeerCapabilities {
            input_forwarding: true,
            display_streaming: false,
            audio_sharing: false,
            clipboard_sharing: true,
            fido2_forwarding: false,
        }
    }
}

/// Information about a peer machine.
#[derive(Debug, Clone)]
pub struct PeerInfo {
    pub id: PeerId,
    pub hostname: String,
    pub os: OsType,
    pub displays: Vec<DisplayInfo>,
    pub capabilities: PeerCapabilities,
}

/// Screen edge for cursor transition detection.
#[derive(Debug, Clone, Copy, PartialEq, Eq, Structural)]
pub enum ScreenEdge {
    Top,
    Bottom,
    Left,
    Right,
}

/// Screen layout link — maps an edge of one screen to another peer's screen.
#[derive(Debug, Clone, Copy, PartialEq, Eq, Structural)]
pub struct ScreenLink {
    pub source_display: u32,
    pub source_edge: ScreenEdge,
    pub target_peer: PeerId,
    pub target_display: u32,
    /// Offset along the edge (for partial-edge mappings).
    pub offset: i32,
}

/// Connection state of a peer.
#[derive(Debug, Clone, Copy, PartialEq, Eq, Structural)]
pub enum ConnectionState {
    Disconnected,
    Connecting,
    Connected,
    Authenticated,
    Active,
}

/// Which peer currently has keyboard/mouse focus.
#[derive(Debug, Clone, Copy, PartialEq, Eq, Structural)]
pub struct FocusState {
    pub active_peer: PeerId,
    pub active_display: u32,
    pub cursor_x: i32,
    pub cursor_y: i32,
}

} // verus!
