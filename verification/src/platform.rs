//! Platform detection: operating system, display server and host name.
//!
//! The environment and the build target are read by the program around this
//! crate; the decisions on what was read are here.
use vstd::prelude::*;
use crate::types::OsType;

verus! {

/// Display server / windowing system in use.
#[derive(Debug, Clone, Copy, PartialEq, Eq, Structural)]
pub enum DisplayServer {
    /// X11 (Xorg)
    X11,
    /// Wayland compositor
    Wayland,
    /// Windows desktop
    Windows,
    /// Could not detect
    Unknown,
}

/// The display text of a display server.
pub open spec fn display_server_text(d: DisplayServer) -> Seq<char> {
    match d {
        DisplayServer::X11 => "X11"@,
        DisplayServer::Wayland => "Wayland"@,
        DisplayServer::Windows => "Windows"@,
        DisplayServer::Unknown => "Unknown"@,
    }
}

impl DisplayServer {
    /// The name of the display server, as it is displayed.
    pub fn to_string(&self) -> (s: String)
        ensures
            s@ == display_server_text(*self),
    {
        proof {
            reveal_strlit("X11");
            reveal_strlit("Wayland");
            reveal_strlit("Windows");
            reveal_strlit("Unknown");
        }
        match self {
            DisplayServer::X11 => String::from_str("X11"),
            DisplayServer::Wayland => String::from_str("Wayland"),
            DisplayServer::Windows => String::from_str("Windows"),
            DisplayServer::Unknown => String::from_str("Unknown"),
        }
    }
}

/// The display server, given the target's operating system name
/// (`std::env::consts::OS`) and whether `WAYLAND_DISPLAY` and `DISPLAY` are
/// set: always Windows on Windows; on Linux Wayland first, then X11; else
/// unknown.
pub fn detect_display_server(target_os: &str, wayland_display_set: bool, display_set: bool) -> (d: DisplayServer)
    ensures
        target_os@ == "windows"@ ==> d == DisplayServer::Windows,
        target_os@ == "linux"@ ==> d == (if wayland_display_set {
            DisplayServer::Wayland
        } else if display_set {
            DisplayServer::X11
        } else {
            DisplayServer::Unknown
        }),
        target_os@ != "windows"@ && target_os@ != "linux"@ ==> d == DisplayServer::Unknown,
{
    proof {
        reveal_strlit("windows");
        reveal_strlit("linux");
        assert("windows"@.len() != "linux"@.len());
    }
    if str_eq(target_os, "windows") {
        DisplayServer::Windows
    } else if str_eq(target_os, "linux") {
        if wayland_display_set {
            DisplayServer::Wayland
        } else if display_set {
            DisplayServer::X11
        } else {
            DisplayServer::Unknown
        }
    } else {
        DisplayServer::Unknown
    }
}

/// Whether the session is Wayland with XWayland: both `WAYLAND_DISPLAY` and
/// `DISPLAY` are set.
pub fn is_xwayland(wayland_display_set: bool, display_set: bool) -> (b: bool)
    ensures
        b == (wayland_display_set && display_set),
{
    wayland_display_set && display_set
}

/// The operating system type for a target operating system name
/// (`std::env::consts::OS`): Linux, Windows, macOS; any other target counts
/// as Linux.
pub fn current_os(target_os: &str) -> (os: OsType)
    ensures
        os == (if target_os@ == "windows"@ {
            OsType::Windows
        } else if target_os@ == "macos"@ {
            OsType::MacOS
        } else {
            OsType::Linux
        }),
{
    if str_eq(target_os, "windows") {
        OsType::Windows
    } else if str_eq(target_os, "macos") {
        OsType::MacOS
    } else {
        OsType::Linux
    }
}

/// Character-wise equality of two strings.
pub fn str_eq(a: &str, b: &str) -> (r: bool)
    ensures
        r == (a@ == b@),
{
    let n = a.unicode_len();
    if n != b.unicode_len() {
        return false;
    }
    let mut i: usize = 0;
    while i < n
        invariant
            n == a@.len(),
            n == b@.len(),
            0 <= i <= n,
            forall|j: int| 0 <= j < i ==> a@[j] == b@[j],
        decreases n - i,
    {
        if a.get_char(i) != b.get_char(i) {
            return false;
        }
        i = i + 1;
    }
    proof {
        assert(a@ =~= b@);
    }
    true
}

/// The host name as the operating system reports it (`hostname::get`),
/// converted lossily to UTF-8; `None` when it cannot be read. Nothing is
/// stated of the name: it depends on the machine.
#[verifier::external_body]
fn read_hostname() -> Option<String> {
    hostname::get().ok().map(|h| h.to_string_lossy().to_string())
}

/// The host name read from the system, or `"unknown"` when it could not be
/// read.
pub fn hostname_or_unknown(name: Option<String>) -> (s: String)
    ensures
        match name {
            Some(n) => s@ == n@,
            None => s@ == "unknown"@,
        },
{
    match name {
        Some(n) => n,
        None => String::from_str("unknown"),
    }
}

/// The current host name, or `"unknown"` when it cannot be read.
pub fn hostname() -> String {
    hostname_or_unknown(read_hostname())
}

} // verus!
