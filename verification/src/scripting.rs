//! The scripting interface: the commands scripts issue, the events they
//! receive, the values they see, and how the calls of their event handlers
//! are made and judged.
//!
//! The Rhai engine runs the scripts in the program around this crate, with
//! host functions bound to its channels and shared state.
use vstd::prelude::*;
use crate::platform::str_eq;
use crate::text::{decimal, push_decimal, string_push};
use crate::types::{DisplayInfo, PeerInfo, os_type_text, uuid_text};

verus! {

/// Sandbox limit: operations per script run.
pub const MAX_OPERATIONS: u64 = 100_000;
/// Sandbox limit: length of a string.
pub const MAX_STRING_SIZE: usize = 10_000;
/// Sandbox limit: length of an array.
pub const MAX_ARRAY_SIZE: usize = 100;

/// Errors produced by the scripting subsystem.
#[derive(Debug)]
pub enum ScriptError {
    /// Script compilation error.
    Compile(String),
    /// Script runtime error.
    Runtime(String),
    /// I/O error.
    Io(std::io::Error),
}

/// Commands that scripts can issue to the KVM system.
#[derive(Debug, Clone)]
pub enum ScriptCommand {
    SwitchToScreen(i64),
    SendClipboard(String),
    LockToScreen,
    UnlockScreen,
    Log(String),
    Notify { title: String, msg: String },
}

/// Events dispatched to scripts.
#[derive(Debug, Clone)]
pub enum ScriptEvent {
    ScreenEnter { peer_name: String, display_id: u32 },
    ScreenLeave { peer_name: String, display_id: u32 },
    PeerConnected { peer_name: String },
    PeerDisconnected { peer_name: String },
}

/// Peer info exposed to scripts.
#[derive(Debug, Clone)]
pub struct ScriptPeerInfo {
    pub id: String,
    pub hostname: String,
    pub os: String,
    pub display_count: i64,
}

/// Display info exposed to scripts.
#[derive(Debug, Clone)]
pub struct ScriptDisplayInfo {
    pub id: i64,
    pub name: String,
    pub width: i64,
    pub height: i64,
    pub is_primary: bool,
}

/// The signed decimal rendering of an integer.
pub open spec fn signed_decimal(v: int) -> Seq<char> {
    if v < 0 { seq!['-'] + decimal((-v) as nat) } else { decimal(v as nat) }
}

fn push_signed_decimal(s: &mut String, v: i64)
    ensures
        final(s)@ == old(s)@ + signed_decimal(v as int),
{
    if v < 0 {
        string_push(s, '-');
        let m: u64 = if v == i64::MIN { 0x8000_0000_0000_0000u64 } else { (-v) as u64 };
        push_decimal(s, m);
        assert(s@ =~= old(s)@ + signed_decimal(v as int));
    } else {
        push_decimal(s, v as u64);
    }
}

impl ScriptPeerInfo {
    /// The script's view of a peer.
    pub fn from_peer(p: &PeerInfo) -> (s: Self)
        ensures
            s.id@ == uuid_text(p.id.0),
            s.hostname@ == p.hostname@,
            s.os@ == os_type_text(p.os),
            s.display_count == p.displays@.len() as i64,
    {
        ScriptPeerInfo {
            id: p.id.to_string(),
            hostname: p.hostname.clone(),
            os: String::from_str(p.os.name()),
            display_count: p.displays.len() as i64,
        }
    }

    /// The script-facing text: "Peer(<hostname>)".
    pub fn to_string(&self) -> (s: String)
        ensures
            s@ == "Peer("@ + self.hostname@ + ")"@,
    {
        let mut s = String::from_str("Peer(");
        s.append(self.hostname.as_str());
        s.append(")");
        s
    }
}

impl ScriptDisplayInfo {
    /// The script's view of a display.
    pub fn from_display(d: &DisplayInfo) -> (s: Self)
        ensures
            s.id == d.id,
            s.name@ == d.name@,
            s.width == d.width,
            s.height == d.height,
            s.is_primary == d.is_primary,
    {
        ScriptDisplayInfo {
            id: d.id as i64,
            name: d.name.clone(),
            width: d.width as i64,
            height: d.height as i64,
            is_primary: d.is_primary,
        }
    }

    /// The script-facing text: "Display(<name>, <width>x<height>)".
    pub fn to_string(&self) -> (s: String)
        ensures
            s@ == "Display("@ + self.name@ + ", "@ + signed_decimal(self.width as int) + "x"@
                + signed_decimal(self.height as int) + ")"@,
    {
        let mut s = String::from_str("Display(");
        s.append(self.name.as_str());
        s.append(", ");
        push_signed_decimal(&mut s, self.width);
        s.append("x");
        push_signed_decimal(&mut s, self.height);
        s.append(")");
        s
    }
}

/// The arguments of an event handler call.
#[derive(Debug, Clone)]
pub enum HandlerArgs {
    /// A peer name and a display id.
    PeerAndDisplay(String, i64),
    /// A peer name.
    Peer(String),
}

/// The script function that handles an event.
pub open spec fn handler_name(event: ScriptEvent) -> Seq<char> {
    match event {
        ScriptEvent::ScreenEnter { .. } => "on_screen_enter"@,
        ScriptEvent::ScreenLeave { .. } => "on_screen_leave"@,
        ScriptEvent::PeerConnected { .. } => "on_peer_connected"@,
        ScriptEvent::PeerDisconnected { .. } => "on_peer_disconnected"@,
    }
}

/// The call that dispatches an event to a script: the handler's name and
/// its arguments (the peer name, and the display id for screen events).
pub fn event_handler(event: &ScriptEvent) -> (r: (&'static str, HandlerArgs))
    ensures
        r.0@ == handler_name(*event),
        match *event {
            ScriptEvent::ScreenEnter { peer_name, display_id } | ScriptEvent::ScreenLeave { peer_name, display_id } =>
                r.1 matches HandlerArgs::PeerAndDisplay(n, d) && n@ == peer_name@ && d == display_id,
            ScriptEvent::PeerConnected { peer_name } | ScriptEvent::PeerDisconnected { peer_name } =>
                r.1 matches HandlerArgs::Peer(n) && n@ == peer_name@,
        },
{
    match event {
        ScriptEvent::ScreenEnter { peer_name, display_id } =>
            ("on_screen_enter", HandlerArgs::PeerAndDisplay(peer_name.clone(), *display_id as i64)),
        ScriptEvent::ScreenLeave { peer_name, display_id } =>
            ("on_screen_leave", HandlerArgs::PeerAndDisplay(peer_name.clone(), *display_id as i64)),
        ScriptEvent::PeerConnected { peer_name } => ("on_peer_connected", HandlerArgs::Peer(peer_name.clone())),
        ScriptEvent::PeerDisconnected { peer_name } => ("on_peer_disconnected", HandlerArgs::Peer(peer_name.clone())),
    }
}

/// Whether `needle` occurs in `hay` at position `i`.
pub open spec fn occurs_at(hay: Seq<char>, needle: Seq<char>, i: int) -> bool {
    0 <= i && i + needle.len() <= hay.len() && hay.subrange(i, i + needle.len()) == needle
}

/// Whether `needle` occurs in `hay`.
pub open spec fn contains_text(hay: Seq<char>, needle: Seq<char>) -> bool {
    exists|i: int| occurs_at(hay, needle, i)
}

/// Substring search (`str::contains` with a string pattern).
pub fn str_contains(hay: &str, needle: &str) -> (b: bool)
    ensures
        b == contains_text(hay@, needle@),
{
    let n = hay.unicode_len();
    let m = needle.unicode_len();
    if m > n {
        proof {
            assert forall|i: int| !occurs_at(hay@, needle@, i) by {}
        }
        return false;
    }
    let mut i: usize = 0;
    while i <= n - m
        invariant
            n == hay@.len(),
            m == needle@.len(),
            m <= n,
            0 <= i <= n - m + 1,
            forall|k: int| 0 <= k < i ==> !occurs_at(hay@, needle@, k),
        decreases n - m + 1 - i,
    {
        let mut j: usize = 0;
        let mut ok = true;
        while j < m
            invariant
                n == hay@.len(),
                m == needle@.len(),
                i + m <= n,
                0 <= j <= m,
                ok == (forall|t: int| 0 <= t < j ==> hay@[i + t] == needle@[t]),
            decreases m - j,
        {
            if hay.get_char(i + j) != needle.get_char(j) {
                ok = false;
            }
            j = j + 1;
        }
        if ok {
            assert(hay@.subrange(i as int, i + m) =~= needle@);
            assert(occurs_at(hay@, needle@, i as int));
            return true;
        }
        proof {
            if occurs_at(hay@, needle@, i as int) {
                let t = choose|t: int| 0 <= t < m && hay@[i + t] != needle@[t];
                assert(hay@.subrange(i as int, i + m)[t] == hay@[i + t]);
            }
        }
        i = i + 1;
    }
    false
}

/// The number of arguments a handler call passes.
pub open spec fn args_arity(args: HandlerArgs) -> nat {
    match args {
        HandlerArgs::PeerAndDisplay(..) => 2,
        HandlerArgs::Peer(..) => 1,
    }
}

/// The number of arguments a handler call passes: two for screen events,
/// one for peer events.
pub fn handler_arity(args: &HandlerArgs) -> (n: usize)
    ensures
        n == args_arity(*args),
{
    match args {
        HandlerArgs::PeerAndDisplay(..) => 2,
        HandlerArgs::Peer(..) => 1,
    }
}

/// Whether a script's functions, given as (name, number of parameters),
/// include one of the given name and number of parameters.
pub fn handler_defined(functions: &Vec<(String, usize)>, name: &str, arity: usize) -> (b: bool)
    ensures
        b == exists|i: int| 0 <= i < functions@.len() && #[trigger] functions@[i].0@ == name@ && functions@[i].1 == arity,
{
    let mut i: usize = 0;
    while i < functions.len()
        invariant
            0 <= i <= functions@.len(),
            forall|j: int| 0 <= j < i ==> !(#[trigger] functions@[j].0@ == name@ && functions@[j].1 == arity),
        decreases functions@.len() - i,
    {
        if functions[i].1 == arity && str_eq(functions[i].0.as_str(), name) {
            return true;
        }
        i = i + 1;
    }
    false
}

/// The outcome of dispatching an event to a script, given whether the
/// script defines the handler (a function of that name taking the event's
/// arguments) and, when it does, the outcome of the call (the text of the
/// engine's error if it failed). A script that does not define the handler
/// is fine; a failure of a defined handler is the runtime error
/// "<handler>: <message>".
pub fn handler_outcome(fn_name: &str, defined: bool, result: Result<(), String>) -> (r: Result<(), ScriptError>)
    ensures
        !defined ==> r is Ok,
        defined ==> match result {
            Ok(()) => r is Ok,
            Err(msg) => r matches Err(ScriptError::Runtime(m)) && m@ == fn_name@ + ": "@ + msg@,
        },
{
    if !defined {
        return Ok(());
    }
    match result {
        Ok(()) => Ok(()),
        Err(msg) => {
            let mut m = String::from_str(fn_name);
            m.append(": ");
            m.append(msg.as_str());
            Err(ScriptError::Runtime(m))
        },
    }
}

/// The extension of the last component of a path: the text after its last
/// dot, when that dot is not the component's first character.
pub open spec fn path_extension(path: Seq<char>) -> Option<Seq<char>>
    decreases path.len(),
{
    path_extension_from(path, path.len() as int)
}

/// The extension, scanning back from position `end`.
pub open spec fn path_extension_from(path: Seq<char>, end: int) -> Option<Seq<char>>
    decreases end,
{
    if end <= 0 {
        None
    } else if path[end - 1] == '/' {
        None
    } else if path[end - 1] == '.' {
        if end - 1 == 0 || path[end - 2] == '/' {
            None
        } else {
            Some(path.subrange(end, path.len() as int))
        }
    } else {
        path_extension_from(path, end - 1)
    }
}

/// Whether a path names a script: its extension is `rhai`.
pub fn is_script_path(path: &str) -> (b: bool)
    ensures
        b == (path_extension(path@) == Some("rhai"@)),
{
    let n = path.unicode_len();
    let mut end: usize = n;
    while end > 0
        invariant
            n == path@.len(),
            0 <= end <= n,
            path_extension(path@) == path_extension_from(path@, end as int),
        decreases end,
    {
        let c = path.get_char(end - 1);
        if c == '/' {
            return false;
        }
        if c == '.' {
            if end - 1 == 0 || path.get_char(end - 2) == '/' {
                return false;
            }
            let ext = path.substring_char(end, n);
            return crate::platform::str_eq(ext, "rhai");
        }
        end = end - 1;
    }
    false
}

/// Whether a loaded script is reloaded: its file is newer than when it was
/// loaded.
pub fn needs_reload(modified_nanos: u128, loaded_nanos: u128) -> (b: bool)
    ensures
        b == (modified_nanos > loaded_nanos),
{
    modified_nanos > loaded_nanos
}

} // verus!
