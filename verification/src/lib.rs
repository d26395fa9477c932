//! S-KVM: software keyboard/video/mouse sharing between machines.
//!
//! The verified core of the system:
//! - `types`, `events`, `protocol`: peers, displays, input events and the
//!   protocol's messages; `quic`: framing of messages on streams;
//! - `input`: translation of raw evdev and Win32 hook events, modifier
//!   tracking, injection plans; `edge`: screen-edge transitions;
//! - `clipboard`: change detection and remote updates;
//! - `fido2`: CTAPHID framing and the FIDO2 relay;
//! - `tls`: certificates, fingerprints, pairing codes; `discovery`, `peers`:
//!   mDNS advertisement and resolution, handshakes and the peer table;
//! - `daemon`: event routing and the GUI's commands; `gui`: the GUI's views;
//! - `video`, `audio`, `display`: raw video framing, audio sizing and
//!   numbering, display enumeration; `scripting`: the script interface;
//! - `config`, `platform`: defaults and platform detection; `bytes`,
//!   `text`, `clock`: helpers.
use vstd::prelude::*;

pub mod audio;
pub mod bytes;
pub mod clipboard;
pub mod clock;
pub mod config;
pub mod daemon;
pub mod discovery;
pub mod display;
pub mod edge;
pub mod events;
pub mod fido2;
pub mod gui;
pub mod input;
pub mod peers;
pub mod platform;
pub mod protocol;
pub mod quic;
pub mod scripting;
pub mod text;
pub mod tls;
pub mod types;
pub mod video;

verus! {

/// I/O errors of the standard library, carried inside this crate's error
/// types.
#[verifier::external_type_specification]
#[verifier::external_body]
pub struct ExIoError(std::io::Error);

} // verus!
