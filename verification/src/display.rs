//! Display enumeration: which backend describes the displays, and how each
//! backend's raw answers become display descriptions.
//!
//! The backends themselves (X11 RandR requests, the DRM entries in sysfs,
//! the Win32 monitor functions) are queried by the program around this
//! crate; refresh rates, which are floating-point, come from it as bits.
use vstd::prelude::*;
use crate::platform::{DisplayServer, str_eq};
use crate::text::{decimal, push_decimal};
use crate::types::{DisplayInfo, REFRESH_60HZ_BITS, SCALE_ONE_BITS};
use crate::discovery::first_index_of;

verus! {

/// Default fallback display: "Primary Display", 1920x1080 at the origin,
/// 60 Hz, scale 1, primary.
pub fn default_display() -> (d: DisplayInfo)
    ensures
        d.id == 0,
        d.name@ == "Primary Display"@,
        d.x == 0 && d.y == 0,
        d.width == 1920 && d.height == 1080,
        d.refresh_rate_bits == REFRESH_60HZ_BITS,
        d.scale_factor_bits == SCALE_ONE_BITS,
        d.is_primary,
{
    DisplayInfo {
        id: 0,
        name: String::from_str("Primary Display"),
        x: 0,
        y: 0,
        width: 1920,
        height: 1080,
        refresh_rate_bits: REFRESH_60HZ_BITS,
        scale_factor_bits: SCALE_ONE_BITS,
        is_primary: true,
    }
}

/// The enumeration backends.
#[derive(Debug, Clone, Copy, PartialEq, Eq, Structural)]
pub enum DisplayBackend {
    /// Wayland (read from DRM in sysfs, as Wayland has no client query).
    Wayland,
    X11,
    Drm,
    Windows,
    /// Only the default display.
    Fallback,
}

/// The backend for a target operating system and display server.
pub fn display_backend(target_os: &str, server: DisplayServer) -> (b: DisplayBackend)
    ensures
        target_os@ == "linux"@ ==> b == (match server {
            DisplayServer::Wayland => DisplayBackend::Wayland,
            DisplayServer::X11 => DisplayBackend::X11,
            _ => DisplayBackend::Drm,
        }),
        target_os@ == "windows"@ ==> b == DisplayBackend::Windows,
        target_os@ != "linux"@ && target_os@ != "windows"@ ==> b == DisplayBackend::Fallback,
{
    proof {
        reveal_strlit("linux");
        reveal_strlit("windows");
        assert("linux"@.len() != "windows"@.len());
    }
    if str_eq(target_os, "linux") {
        match server {
            DisplayServer::Wayland => DisplayBackend::Wayland,
            DisplayServer::X11 => DisplayBackend::X11,
            _ => DisplayBackend::Drm,
        }
    } else if str_eq(target_os, "windows") {
        DisplayBackend::Windows
    } else {
        DisplayBackend::Fallback
    }
}

/// The displays a backend found, or the default display when it failed.
pub fn displays_or_default(found: Option<Vec<DisplayInfo>>) -> (v: Vec<DisplayInfo>)
    ensures
        match found {
            Some(ds) => v@ == ds@,
            None => v@.len() == 1 && v@[0].name@ == "Primary Display"@ && v@[0].width == 1920
                && v@[0].height == 1080,
        },
{
    match found {
        Some(ds) => ds,
        None => {
            let mut v: Vec<DisplayInfo> = Vec::new();
            v.push(default_display());
            v
        },
    }
}

// ---------------------------------------------------------------------------
// Text helpers
// ---------------------------------------------------------------------------

/// Whether a character has the Unicode `White_Space` property (what
/// `char::is_whitespace`, and so `str::trim`, tests).
pub open spec fn is_white_space(c: char) -> bool {
    ||| ('\u{9}' <= c && c <= '\u{d}')
    ||| c == ' '
    ||| c == '\u{85}'
    ||| c == '\u{a0}'
    ||| c == '\u{1680}'
    ||| ('\u{2000}' <= c && c <= '\u{200a}')
    ||| c == '\u{2028}'
    ||| c == '\u{2029}'
    ||| c == '\u{202f}'
    ||| c == '\u{205f}'
    ||| c == '\u{3000}'
}

/// The text without its leading white space.
pub open spec fn trim_start_ws(s: Seq<char>) -> Seq<char>
    decreases s.len(),
{
    if s.len() > 0 && is_white_space(s[0]) {
        trim_start_ws(s.drop_first())
    } else {
        s
    }
}

/// The text without its trailing white space.
pub open spec fn trim_end_ws(s: Seq<char>) -> Seq<char>
    decreases s.len(),
{
    if s.len() > 0 && is_white_space(s.last()) {
        trim_end_ws(s.drop_last())
    } else {
        s
    }
}

/// The text with leading and trailing white space removed (`str::trim`).
pub open spec fn trimmed(s: Seq<char>) -> Seq<char> {
    trim_end_ws(trim_start_ws(s))
}

proof fn lemma_trim_start(s: Seq<char>, i: int)
    requires
        0 <= i <= s.len(),
        forall|k: int| 0 <= k < i ==> is_white_space(#[trigger] s[k]),
        i == s.len() || !is_white_space(s[i]),
    ensures
        trim_start_ws(s) == s.skip(i),
    decreases i,
{
    if i > 0 {
        let t = s.drop_first();
        assert forall|k: int| 0 <= k < i - 1 implies is_white_space(#[trigger] t[k]) by {
            assert(t[k] == s[k + 1]);
        }
        if i - 1 < t.len() {
            assert(t[i - 1] == s[i]);
        }
        lemma_trim_start(t, i - 1);
        assert(t.skip(i - 1) =~= s.skip(i));
    } else {
        assert(s.skip(0) =~= s);
    }
}

proof fn lemma_trim_end(s: Seq<char>, j: int)
    requires
        0 <= j <= s.len(),
        forall|k: int| j <= k < s.len() ==> is_white_space(#[trigger] s[k]),
        j == 0 || !is_white_space(s[j - 1]),
    ensures
        trim_end_ws(s) == s.take(j),
    decreases s.len() - j,
{
    if j < s.len() {
        let t = s.drop_last();
        assert(is_white_space(s[s.len() - 1]));
        assert forall|k: int| j <= k < t.len() implies is_white_space(#[trigger] t[k]) by {
            assert(t[k] == s[k]);
        }
        if j > 0 {
            assert(t[j - 1] == s[j - 1]);
        }
        lemma_trim_end(t, j);
        assert(t.take(j) =~= s.take(j));
    } else {
        assert(s.take(j) =~= s);
    }
}

/// Whether a character is white space (`char::is_whitespace`).
fn white_space(c: char) -> (b: bool)
    ensures
        b == is_white_space(c),
{
    ('\u{9}' <= c && c <= '\u{d}') || c == ' ' || c == '\u{85}' || c == '\u{a0}' || c == '\u{1680}'
        || ('\u{2000}' <= c && c <= '\u{200a}') || c == '\u{2028}' || c == '\u{2029}' || c == '\u{202f}'
        || c == '\u{205f}' || c == '\u{3000}'
}

/// The text with leading and trailing white space removed.
fn trim(s: &str) -> (r: String)
    ensures
        r@ == trimmed(s@),
{
    let n = s.unicode_len();
    let mut i: usize = 0;
    while i < n && white_space(s.get_char(i))
        invariant
            n == s@.len(),
            0 <= i <= n,
            forall|k: int| 0 <= k < i ==> is_white_space(#[trigger] s@[k]),
        decreases n - i,
    {
        i = i + 1;
    }
    proof {
        lemma_trim_start(s@, i as int);
    }
    let mut j: usize = n;
    while j > i && white_space(s.get_char(j - 1))
        invariant
            n == s@.len(),
            0 <= i <= j <= n,
            forall|k: int| j <= k < n ==> is_white_space(#[trigger] s@[k]),
        decreases j,
    {
        j = j - 1;
    }
    proof {
        let t = s@.skip(i as int);
        let m = (j - i) as int;
        assert forall|k: int| m <= k < t.len() implies is_white_space(#[trigger] t[k]) by {
            assert(t[k] == s@[i + k]);
        }
        if m > 0 {
            assert(t[m - 1] == s@[j - 1]);
        }
        lemma_trim_end(t, m);
        assert(t.take(m) =~= s@.subrange(i as int, j as int));
    }
    String::from_str(s.substring_char(i, j))
}

/// The first line of a text (`str::lines().next()`): up to the first line
/// feed, without a carriage return before it; `None` for an empty text.
pub open spec fn first_line(s: Seq<char>) -> Option<Seq<char>> {
    if s.len() == 0 {
        None
    } else {
        let line = match first_index_of(s, '\n') {
            Some(i) => s.subrange(0, i),
            None => s,
        };
        Some(if line.len() > 0 && line.last() == '\r' { line.drop_last() } else { line })
    }
}

/// Whether every character is an ASCII digit.
pub open spec fn all_digits(s: Seq<char>) -> bool {
    forall|i: int| 0 <= i < s.len() ==> '0' <= #[trigger] s[i] <= '9'
}

/// The value of a run of decimal digits.
pub open spec fn digits_value(s: Seq<char>) -> nat
    decreases s.len(),
{
    if s.len() == 0 {
        0
    } else {
        digits_value(s.drop_last()) * 10 + ((s.last() as int - '0' as int) as nat)
    }
}

/// What `str::parse::<u32>` gives: an optional `+`, then one or more ASCII
/// digits whose value fits in 32 bits.
pub open spec fn parse_u32_text(s: Seq<char>) -> Option<u32> {
    let body = if s.len() > 0 && s[0] == '+' { s.drop_first() } else { s };
    if body.len() > 0 && all_digits(body) && digits_value(body) <= u32::MAX {
        Some(digits_value(body) as u32)
    } else {
        None
    }
}

proof fn lemma_digits_value_grows(s: Seq<char>, n: int)
    requires
        0 <= n <= s.len(),
        all_digits(s),
    ensures
        digits_value(s.subrange(0, n)) <= digits_value(s),
    decreases s.len() - n,
{
    if n < s.len() {
        lemma_digits_value_grows(s, n + 1);
        assert(s.subrange(0, n + 1).drop_last() =~= s.subrange(0, n));
        assert('0' <= s[n] <= '9');
    } else {
        assert(s.subrange(0, n) =~= s);
    }
}

/// Parses a decimal `u32` as `str::parse::<u32>` does.
pub fn parse_u32(s: &str) -> (r: Option<u32>)
    ensures
        r == parse_u32_text(s@),
{
    let n = s.unicode_len();
    let start: usize = if n > 0 && s.get_char(0) == '+' { 1 } else { 0 };
    let ghost body = if s@.len() > 0 && s@[0] == '+' { s@.drop_first() } else { s@ };
    proof {
        assert(body =~= s@.subrange(start as int, n as int));
    }
    if start == n {
        return None;
    }
    let mut value: u64 = 0;
    let mut i: usize = start;
    while i < n
        invariant
            n == s@.len(),
            start <= i <= n,
            body == (if s@.len() > 0 && s@[0] == '+' { s@.drop_first() } else { s@ }),
            body == s@.subrange(start as int, n as int),
            all_digits(body.subrange(0, i - start)),
            value == digits_value(body.subrange(0, i - start)),
            value <= u32::MAX,
        decreases n - i,
    {
        let c = s.get_char(i);
        assert(body[i - start] == c);
        assert(body.subrange(0, i - start + 1).drop_last() =~= body.subrange(0, i - start));
        if c < '0' || c > '9' {
            proof {
                assert(!all_digits(body));
            }
            return None;
        }
        let d: u64 = (c as u32 - '0' as u32) as u64;
        let next: u64 = value * 10 + d;
        if next > 0xFFFF_FFFF {
            proof {
                assert(all_digits(body.subrange(0, i - start + 1)));
                assert(digits_value(body.subrange(0, i - start + 1)) == next);
                if all_digits(body) {
                    lemma_digits_value_grows(body, i - start + 1);
                }
            }
            return None;
        }
        value = next;
        i = i + 1;
        assert(all_digits(body.subrange(0, i - start)));
    }
    assert(body.subrange(0, n - start) =~= body);
    Some(value as u32)
}

/// The size in the first mode of a DRM `modes` file (a line such as
/// "1920x1080", possibly with an `i` suffix for interlaced modes). A part
/// that does not parse falls back to 1920 or 1080.
pub open spec fn first_mode_size(modes: Seq<char>) -> (u32, u32) {
    match first_line(modes) {
        None => (1920, 1080),
        Some(line) => {
            let clean = trim_trailing_i(trimmed(line));
            match first_index_of(clean, 'x') {
                None => (1920, 1080),
                Some(k) => (
                    match parse_u32_text(clean.subrange(0, k)) { Some(w) => w, None => 1920 },
                    match parse_u32_text(clean.subrange(k + 1, clean.len() as int)) { Some(h) => h, None => 1080 },
                ),
            }
        },
    }
}

/// The text with its trailing `i` characters removed.
pub open spec fn trim_trailing_i(s: Seq<char>) -> Seq<char>
    decreases s.len(),
{
    if s.len() > 0 && s.last() == 'i' {
        trim_trailing_i(s.drop_last())
    } else {
        s
    }
}

fn first_index(s: &str, c: char) -> (r: Option<usize>)
    ensures
        r matches Some(i) ==> first_index_of(s@, c) == Some(i as int) && i < s@.len(),
        r is None ==> first_index_of(s@, c) is None,
{
    let n = s.unicode_len();
    let mut i: usize = 0;
    while i < n
        invariant
            n == s@.len(),
            0 <= i <= n,
            first_index_of(s@.subrange(0, i as int), c) is None,
        decreases n - i,
    {
        assert(s@.subrange(0, i as int + 1).drop_last() =~= s@.subrange(0, i as int));
        if s.get_char(i) == c {
            proof {
                lemma_first_index_of_extend(s@, c, i as int + 1);
            }
            return Some(i);
        }
        i = i + 1;
    }
    assert(s@.subrange(0, i as int) =~= s@);
    None
}

proof fn lemma_first_index_of_extend(s: Seq<char>, c: char, n: int)
    requires
        0 <= n <= s.len(),
        first_index_of(s.subrange(0, n), c) is Some,
    ensures
        first_index_of(s, c) == first_index_of(s.subrange(0, n), c),
    decreases s.len() - n,
{
    if n < s.len() {
        assert(s.subrange(0, n + 1).drop_last() =~= s.subrange(0, n));
        lemma_first_index_of_extend(s, c, n + 1);
    } else {
        assert(s.subrange(0, n) =~= s);
    }
}

/// Parses the first mode of a DRM `modes` file into a width and a height
/// (the refresh rate is not in the file and is taken as 60 Hz).
pub fn parse_first_mode(modes: &str) -> (r: (u32, u32))
    ensures
        r == first_mode_size(modes@),
{
    let n = modes.unicode_len();
    if n == 0 {
        return (1920, 1080);
    }
    let mut line_end = match first_index(modes, '\n') {
        Some(i) => i,
        None => n,
    };
    if line_end > 0 && modes.get_char(line_end - 1) == '\r' {
        line_end = line_end - 1;
    }
    let line = modes.substring_char(0, line_end);
    proof {
        let l = match first_index_of(modes@, '\n') { Some(i) => modes@.subrange(0, i), None => modes@ };
        if first_index_of(modes@, '\n') is None {
            assert(modes@.subrange(0, n as int) =~= modes@);
        }
        if l.len() > 0 && l.last() == '\r' {
            assert(l.drop_last() =~= line@);
        } else {
            assert(l =~= line@);
        }
    }
    let t = trim(line);
    let mut end = t.as_str().unicode_len();
    proof {
        assert(t@.subrange(0, end as int) =~= t@);
    }
    while end > 0 && t.as_str().get_char(end - 1) == 'i'
        invariant
            0 <= end <= t@.len(),
            trim_trailing_i(t@) == trim_trailing_i(t@.subrange(0, end as int)),
        decreases end,
    {
        assert(t@.subrange(0, end as int).drop_last() =~= t@.subrange(0, end as int - 1));
        end = end - 1;
    }
    let clean = t.as_str().substring_char(0, end);
    match first_index(clean, 'x') {
        None => (1920, 1080),
        Some(k) => {
            let cl = clean.unicode_len();
            let w = match parse_u32(clean.substring_char(0, k)) {
                Some(w) => w,
                None => 1920,
            };
            let h = match parse_u32(clean.substring_char(k + 1, cl)) {
                Some(h) => h,
                None => 1080,
            };
            (w, h)
        },
    }
}

// ---------------------------------------------------------------------------
// DRM (sysfs)
// ---------------------------------------------------------------------------

/// Whether a DRM entry names a connector ("card<N>-<connector>"): it
/// starts with "card" and holds a hyphen.
pub open spec fn is_connector_entry(name: Seq<char>) -> bool {
    name.len() >= 4 && name.subrange(0, 4) == "card"@ && first_index_of(name, '-') is Some
}

/// The connector name of a DRM entry: the text after its first hyphen;
/// `None` for entries that are not connectors.
pub fn drm_connector_name(entry: &str) -> (r: Option<String>)
    ensures
        !is_connector_entry(entry@) ==> r is None,
        is_connector_entry(entry@) ==> (r matches Some(c)
            && c@ == entry@.subrange(first_index_of(entry@, '-')->0 + 1, entry@.len() as int)),
{
    proof {
        reveal_strlit("card");
    }
    let n = entry.unicode_len();
    if n < 4 {
        return None;
    }
    let prefix = entry.substring_char(0, 4);
    if !str_eq(prefix, "card") {
        return None;
    }
    match first_index(entry, '-') {
        None => None,
        Some(k) => Some(String::from_str(entry.substring_char(k + 1, n))),
    }
}

/// Whether a connector's `status` file says it is connected (its trimmed
/// content is "connected").
pub fn drm_status_connected(status: &str) -> (b: bool)
    ensures
        b == (trimmed(status@) == "connected"@),
{
    let t = trim(status);
    str_eq(t.as_str(), "connected")
}

/// The description of the `id`-th connected DRM connector: at the origin
/// (sysfs gives no position), 60 Hz, scale 1, primary when it is the first.
pub fn drm_display(id: u32, connector: String, width: u32, height: u32) -> (d: DisplayInfo)
    ensures
        d.id == id,
        d.name@ == connector@,
        d.x == 0 && d.y == 0,
        d.width == width && d.height == height,
        d.refresh_rate_bits == REFRESH_60HZ_BITS,
        d.scale_factor_bits == SCALE_ONE_BITS,
        d.is_primary == (id == 0),
{
    DisplayInfo {
        id,
        name: connector,
        x: 0,
        y: 0,
        width,
        height,
        refresh_rate_bits: REFRESH_60HZ_BITS,
        scale_factor_bits: SCALE_ONE_BITS,
        is_primary: id == 0,
    }
}

// ---------------------------------------------------------------------------
// X11 (RandR)
// ---------------------------------------------------------------------------

/// The name of the `i`-th monitor: its atom's name, or "Monitor <i>" when
/// the name could not be read.
pub fn monitor_name(atom_name: Option<String>, i: u32) -> (s: String)
    ensures
        match atom_name {
            Some(n) => s@ == n@,
            None => s@ == "Monitor "@ + decimal(i as nat),
        },
{
    match atom_name {
        Some(n) => n,
        None => {
            let mut s = String::from_str("Monitor ");
            push_decimal(&mut s, i as u64);
            s
        },
    }
}

/// The description of the `i`-th RandR monitor.
pub fn x11_monitor_display(i: u32, name: String, x: i16, y: i16, width: u16, height: u16, primary: bool, refresh_rate_bits: u64) -> (d: DisplayInfo)
    ensures
        d.id == i,
        d.name@ == name@,
        d.x == x && d.y == y,
        d.width == width && d.height == height,
        d.refresh_rate_bits == refresh_rate_bits,
        d.scale_factor_bits == SCALE_ONE_BITS,
        d.is_primary == primary,
{
    DisplayInfo {
        id: i,
        name,
        x: x as i32,
        y: y as i32,
        width: width as u32,
        height: height as u32,
        refresh_rate_bits,
        scale_factor_bits: SCALE_ONE_BITS,
        is_primary: primary,
    }
}

/// The description used when RandR reports no monitor: the whole screen,
/// "Screen 0", 60 Hz, primary.
pub fn x11_screen_display(width: u16, height: u16) -> (d: DisplayInfo)
    ensures
        d.id == 0,
        d.name@ == "Screen 0"@,
        d.x == 0 && d.y == 0,
        d.width == width && d.height == height,
        d.refresh_rate_bits == REFRESH_60HZ_BITS,
        d.is_primary,
{
    DisplayInfo {
        id: 0,
        name: String::from_str("Screen 0"),
        x: 0,
        y: 0,
        width: width as u32,
        height: height as u32,
        refresh_rate_bits: REFRESH_60HZ_BITS,
        scale_factor_bits: SCALE_ONE_BITS,
        is_primary: true,
    }
}

// ---------------------------------------------------------------------------
// Windows
// ---------------------------------------------------------------------------

/// The flag of the primary monitor in `MONITORINFO::dwFlags`.
pub const MONITORINFOF_PRIMARY: u32 = 0x1;

/// The number of UTF-16 units before the first NUL (all of them when there
/// is none).
pub fn units_before_nul(units: &[u16]) -> (n: usize)
    ensures
        n <= units@.len(),
        forall|i: int| 0 <= i < n ==> units@[i] != 0,
        n < units@.len() ==> units@[n as int] == 0,
{
    let mut i: usize = 0;
    while i < units.len()
        invariant
            0 <= i <= units@.len(),
            forall|k: int| 0 <= k < i ==> units@[k] != 0,
        decreases units@.len() - i,
    {
        if units[i] == 0 {
            return i;
        }
        i = i + 1;
    }
    i
}

/// Whether the first `n` units hold no NUL and are followed by one (or by
/// the end).
pub open spec fn nul_prefix(units: Seq<u16>, n: int) -> bool {
    &&& 0 <= n <= units.len()
    &&& n < units.len() ==> units[n] == 0
    &&& forall|i: int| 0 <= i < n ==> units[i] != 0
}

/// The text of UTF-16 units, decoded lossily (unpaired surrogates become
/// U+FFFD).
pub uninterp spec fn utf16_lossy(units: Seq<u16>) -> Seq<char>;

/// `String::from_utf16_lossy`. Claims: the result is a function of the
/// units.
#[verifier::external_body]
fn string_from_utf16_lossy(units: &[u16]) -> (s: String)
    ensures
        s@ == utf16_lossy(units@),
{
    String::from_utf16_lossy(units)
}

/// The description of the monitor at enumeration index `idx`, from its
/// rectangle, flags, device name (a NUL-terminated UTF-16 buffer) and
/// refresh rate.
pub fn windows_monitor_display(idx: u32, left: i32, top: i32, right: i32, bottom: i32, flags: u32, device: &[u16], refresh_rate_bits: u64) -> (d: DisplayInfo)
    requires
        i32::MIN <= right - left <= i32::MAX,
        i32::MIN <= bottom - top <= i32::MAX,
    ensures
        d.id == idx,
        d.x == left && d.y == top,
        d.width == #[verifier::truncate] (((right - left) as i32) as u32),
        d.height == #[verifier::truncate] (((bottom - top) as i32) as u32),
        d.is_primary == (flags & MONITORINFOF_PRIMARY != 0),
        d.refresh_rate_bits == refresh_rate_bits,
        d.scale_factor_bits == SCALE_ONE_BITS,
        exists|n: int| #[trigger] nul_prefix(device@, n) && d.name@ == utf16_lossy(device@.subrange(0, n)),
{
    let n = units_before_nul(device);
    let prefix = &device[0..n];
    let name = string_from_utf16_lossy(prefix);
    proof {
        assert(prefix@ == device@.subrange(0, n as int));
        assert(name@ == utf16_lossy(device@.subrange(0, n as int)));
        assert(nul_prefix(device@, n as int));
    }
    let w: i32 = right - left;
    let h: i32 = bottom - top;
    DisplayInfo {
        id: idx,
        name,
        x: left,
        y: top,
        width: #[verifier::truncate] (w as u32),
        height: #[verifier::truncate] (h as u32),
        refresh_rate_bits,
        scale_factor_bits: SCALE_ONE_BITS,
        is_primary: flags & MONITORINFOF_PRIMARY != 0,
    }
}

} // verus!
