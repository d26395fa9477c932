//! Input event types carried by the KVM protocol, and modifier tracking.
use vstd::prelude::*;
use crate::clock::unix_time_micros;

verus! {

/// A hardware scan code (physical key position).
pub type ScanCode = u32;

/// Modifier key bitmask.
#[derive(Debug, Clone, Copy, PartialEq, Eq)]
pub struct ModifierMask(pub u16);

impl Default for ModifierMask {
    /// The empty mask: no modifier held, no lock on.
    fn default() -> (m: Self)
        ensures
            m.0 == 0,
    {
        ModifierMask(0)
    }
}

impl ModifierMask {
    pub const SHIFT: u16 = 1;
    pub const CTRL: u16 = 2;
    pub const ALT: u16 = 4;
    pub const META: u16 = 8;
    pub const CAPS_LOCK: u16 = 16;
    pub const NUM_LOCK: u16 = 32;
    pub const SCROLL_LOCK: u16 = 64;

    /// Whether any bit of `flag` is set in the mask.
    pub fn has(&self, flag: u16) -> (r: bool)
        ensures
            r == (self.0 & flag != 0),
    {
        self.0 & flag != 0
    }

    /// Sets every bit of `flag`.
    pub fn set(&mut self, flag: u16)
        ensures
            final(self).0 == old(self).0 | flag,
    {
        self.0 = self.0 | flag;
    }

    /// Clears every bit of `flag`.
    pub fn clear(&mut self, flag: u16)
        ensures
            final(self).0 == old(self).0 & !flag,
    {
        self.0 = self.0 & !flag;
    }
}

/// Modifier laws: after `set(flag)` the mask has `flag` (for a non-empty
/// flag) and keeps every other bit; after `clear(flag)` it has no bit of
/// `flag` and keeps every other bit; setting twice is setting once, clearing
/// twice is clearing once; clearing undoes a set of a flag that was absent.
pub proof fn law_modifier_mask(m: u16, flag: u16, other: u16)
    ensures
        flag != 0 ==> (m | flag) & flag != 0,
        (m & !flag) & flag == 0,
        other & flag == 0 ==> ((m | flag) & other == m & other),
        other & flag == 0 ==> ((m & !flag) & other == m & other),
        (m | flag) | flag == m | flag,
        (m & !flag) & !flag == m & !flag,
        m & flag == 0 ==> (m | flag) & !flag == m,
{
    assert(flag != 0 ==> (m | flag) & flag != 0) by (bit_vector);
    assert((m & !flag) & flag == 0) by (bit_vector);
    assert(other & flag == 0 ==> ((m | flag) & other == m & other)) by (bit_vector);
    assert(other & flag == 0 ==> ((m & !flag) & other == m & other)) by (bit_vector);
    assert((m | flag) | flag == m | flag) by (bit_vector);
    assert((m & !flag) & !flag == m & !flag) by (bit_vector);
    assert(m & flag == 0 ==> (m | flag) & !flag == m) by (bit_vector);
}

/// Mouse button identifier.
#[derive(Debug, Clone, Copy, PartialEq, Eq)]
pub enum MouseButton {
    Left,
    Right,
    Middle,
    Back,
    Forward,
    Other(u8),
}

/// The different kinds of input events.
#[derive(Debug, Clone, Copy, PartialEq, Eq)]
pub enum InputEventKind {
    /// Key pressed down.
    KeyDown { scan_code: ScanCode, modifiers: ModifierMask },
    /// Key released.
    KeyUp { scan_code: ScanCode, modifiers: ModifierMask },
    /// Mouse moved (relative delta).
    MouseMoveRelative { dx: i32, dy: i32 },
    /// Mouse moved (absolute position).
    MouseMoveAbsolute { x: i32, y: i32 },
    /// Mouse button pressed.
    MouseButtonDown { button: MouseButton },
    /// Mouse button released.
    MouseButtonUp { button: MouseButton },
    /// Mouse scroll wheel.
    MouseScroll { dx: i32, dy: i32 },
}

/// A single input event — the fundamental unit of the KVM protocol.
#[derive(Debug, Clone, Copy, PartialEq, Eq)]
pub struct InputEvent {
    /// Microsecond timestamp.
    pub timestamp_us: u64,
    /// The actual event data.
    pub kind: InputEventKind,
}

impl InputEvent {
    /// An event of the given kind with the given timestamp.
    pub fn with_timestamp(timestamp_us: u64, kind: InputEventKind) -> (e: Self)
        ensures
            e.timestamp_us == timestamp_us,
            e.kind == kind,
    {
        InputEvent { timestamp_us, kind }
    }

    /// An event of the given kind, stamped with the current time in
    /// microseconds since the Unix epoch (`unix_time_micros`). The stamp is
    /// the clock's reading; `EventClock` gives stamps that never decrease.
    pub fn new(kind: InputEventKind) -> (e: Self)
        ensures
            e.kind == kind,
    {
        InputEvent::with_timestamp(unix_time_micros(), kind)
    }
}

/// Stamps events so that their stamps never decrease: each event gets the
/// clock's reading, or the previous stamp when the clock reads less than
/// that (the wall clock was set back).
pub struct EventClock {
    last: u64,
}

impl EventClock {
    /// A clock that has stamped nothing yet.
    pub fn new() -> (c: Self)
        ensures
            c.last_stamp() == 0,
    {
        EventClock { last: 0 }
    }

    /// The stamp of the last event (0 before the first).
    pub closed spec fn last_stamp(&self) -> u64 {
        self.last
    }

    /// The stamp for a clock reading: the reading, unless it is below the
    /// last stamp.
    pub open spec fn stamp_for(last: u64, reading: u64) -> u64 {
        if reading >= last {
            reading
        } else {
            last
        }
    }

    /// An event of the given kind stamped from a clock reading, never below
    /// the previous stamp.
    pub fn stamp_at(&mut self, reading: u64, kind: InputEventKind) -> (e: InputEvent)
        ensures
            e.kind == kind,
            e.timestamp_us == Self::stamp_for(old(self).last_stamp(), reading),
            e.timestamp_us >= old(self).last_stamp(),
            final(self).last_stamp() == e.timestamp_us,
    {
        if reading > self.last {
            self.last = reading;
        }
        InputEvent::with_timestamp(self.last, kind)
    }

    /// An event of the given kind stamped from the wall clock
    /// (`unix_time_micros`); a later event never carries a smaller stamp.
    pub fn stamp(&mut self, kind: InputEventKind) -> (e: InputEvent)
        ensures
            e.kind == kind,
            e.timestamp_us >= old(self).last_stamp(),
            final(self).last_stamp() == e.timestamp_us,
    {
        let reading = unix_time_micros();
        self.stamp_at(reading, kind)
    }
}

} // verus!
