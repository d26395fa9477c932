//! Input capture and injection: the translation between the platforms'
//! raw input events and the protocol's input events, modifier tracking,
//! and the capture and injection state.
//!
//! Reading devices, installing hooks and emitting events are done by the
//! program around this crate, which hands every raw event to the functions
//! here and performs what they return.
use vstd::prelude::*;
use crate::events::{InputEventKind, ModifierMask, MouseButton};

verus! {

// ---------------------------------------------------------------------------
// Errors
// ---------------------------------------------------------------------------

/// Errors of input capture.
#[derive(Debug)]
pub enum InputCaptureError {
    /// Failed to open input device.
    DeviceOpen(String),
    /// Failed to grab device.
    GrabFailed(String),
    /// Permission denied.
    PermissionDenied(String),
    /// Platform not supported.
    PlatformNotSupported,
    /// Already capturing.
    AlreadyCapturing,
    /// Not capturing.
    NotCapturing,
    /// I/O error.
    Io(std::io::Error),
}

/// Errors of input injection.
#[derive(Debug)]
pub enum InputInjectionError {
    /// Failed to create virtual device.
    DeviceCreation(String),
    /// Failed to inject event.
    InjectionFailed(String),
    /// Permission denied.
    PermissionDenied(String),
    /// Not initialized.
    NotInitialized,
    /// Platform not supported.
    PlatformNotSupported,
    /// I/O error.
    Io(std::io::Error),
}

// ---------------------------------------------------------------------------
// Modifier tracking (shared by both platforms)
// ---------------------------------------------------------------------------

/// The mask after toggling `flag`: cleared when any bit of it was set,
/// set otherwise.
pub open spec fn toggled(m: u16, flag: u16) -> u16 {
    if m & flag != 0 {
        m & !flag
    } else {
        m | flag
    }
}

/// Whether `flag` is one of the lock-key flags (Caps, Num, Scroll Lock).
pub open spec fn is_lock_flag(flag: u16) -> bool {
    flag == ModifierMask::CAPS_LOCK || flag == ModifierMask::NUM_LOCK || flag == ModifierMask::SCROLL_LOCK
}

/// The modifier mask after a key event of a modifier key: a lock key
/// toggles its flag when pressed; any other modifier is set when pressed
/// and cleared when released.
pub open spec fn modifiers_after(m: u16, flag: u16, lock: bool, pressed: bool, released: bool) -> u16 {
    if lock {
        if pressed { toggled(m, flag) } else { m }
    } else if pressed {
        m | flag
    } else if released {
        m & !flag
    } else {
        m
    }
}

/// Applies a modifier key event to the mask.
fn apply_modifier(mods: &mut ModifierMask, flag: u16, lock: bool, pressed: bool, released: bool)
    ensures
        final(mods).0 == modifiers_after(old(mods).0, flag, lock, pressed, released),
{
    if lock {
        if pressed {
            if mods.has(flag) {
                mods.clear(flag);
            } else {
                mods.set(flag);
            }
        }
    } else if pressed {
        mods.set(flag);
    } else if released {
        mods.clear(flag);
    }
}

proof fn lemma_toggle_single_bit(m: u16, f: u16)
    by (bit_vector)
    requires
        f == 16 || f == 32 || f == 64,
    ensures
        (if (if m & f != 0 { m & !f } else { m | f }) & f != 0 {
            (if m & f != 0 { m & !f } else { m | f }) & !f
        } else {
            (if m & f != 0 { m & !f } else { m | f }) | f
        }) == m,
        ((if m & f != 0 { m & !f } else { m | f }) & f != 0) == (m & f == 0),
        (if m & f != 0 { m & !f } else { m | f }) & !f == m & !f,
{
}

/// Lock-key law: pressing a lock key twice restores the mask, and one
/// press flips exactly its flag.
pub proof fn law_lock_toggle(m: u16, flag: u16)
    requires
        is_lock_flag(flag),
    ensures
        toggled(toggled(m, flag), flag) == m,
        (toggled(m, flag) & flag != 0) == (m & flag == 0),
        toggled(m, flag) & !flag == m & !flag,
{
    lemma_toggle_single_bit(m, flag);
}

// ---------------------------------------------------------------------------
// Linux (evdev) codes
// ---------------------------------------------------------------------------

/// Event type: key or button.
pub const EV_KEY: u16 = 0x01;
/// Event type: relative axis.
pub const EV_REL: u16 = 0x02;
/// Event type: absolute axis.
pub const EV_ABS: u16 = 0x03;

pub const REL_X: u16 = 0x00;
pub const REL_Y: u16 = 0x01;
pub const REL_HWHEEL: u16 = 0x06;
pub const REL_WHEEL: u16 = 0x08;
pub const ABS_X: u16 = 0x00;
pub const ABS_Y: u16 = 0x01;

pub const KEY_A: u16 = 30;
pub const KEY_LEFTCTRL: u16 = 29;
pub const KEY_LEFTSHIFT: u16 = 42;
pub const KEY_RIGHTSHIFT: u16 = 54;
pub const KEY_LEFTALT: u16 = 56;
pub const KEY_CAPSLOCK: u16 = 58;
pub const KEY_NUMLOCK: u16 = 69;
pub const KEY_SCROLLLOCK: u16 = 70;
pub const KEY_RIGHTCTRL: u16 = 97;
pub const KEY_RIGHTALT: u16 = 100;
pub const KEY_LEFTMETA: u16 = 125;
pub const KEY_RIGHTMETA: u16 = 126;

pub const BTN_LEFT: u16 = 0x110;
pub const BTN_RIGHT: u16 = 0x111;
pub const BTN_MIDDLE: u16 = 0x112;
pub const BTN_SIDE: u16 = 0x113;
pub const BTN_EXTRA: u16 = 0x114;

/// The mouse button of an evdev key code: the five named buttons, any
/// other code in `0x110..0x120` as `Other` (its low byte), else none.
pub open spec fn evdev_mouse_button(code: u16) -> Option<MouseButton> {
    if code == BTN_LEFT {
        Some(MouseButton::Left)
    } else if code == BTN_RIGHT {
        Some(MouseButton::Right)
    } else if code == BTN_MIDDLE {
        Some(MouseButton::Middle)
    } else if code == BTN_SIDE {
        Some(MouseButton::Back)
    } else if code == BTN_EXTRA {
        Some(MouseButton::Forward)
    } else if 0x110 <= code < 0x120 {
        Some(MouseButton::Other((code % 256) as u8))
    } else {
        None
    }
}

/// Translate an evdev key code to a mouse button.
pub fn key_to_mouse_button(code: u16) -> (b: Option<MouseButton>)
    ensures
        b == evdev_mouse_button(code),
{
    if code == BTN_LEFT {
        Some(MouseButton::Left)
    } else if code == BTN_RIGHT {
        Some(MouseButton::Right)
    } else if code == BTN_MIDDLE {
        Some(MouseButton::Middle)
    } else if code == BTN_SIDE {
        Some(MouseButton::Back)
    } else if code == BTN_EXTRA {
        Some(MouseButton::Forward)
    } else if 0x110 <= code && code < 0x120 {
        Some(MouseButton::Other((code % 256) as u8))
    } else {
        None
    }
}

/// The modifier flag of an evdev key code.
pub open spec fn evdev_modifier_flag(code: u16) -> Option<u16> {
    if code == KEY_LEFTSHIFT || code == KEY_RIGHTSHIFT {
        Some(ModifierMask::SHIFT)
    } else if code == KEY_LEFTCTRL || code == KEY_RIGHTCTRL {
        Some(ModifierMask::CTRL)
    } else if code == KEY_LEFTALT || code == KEY_RIGHTALT {
        Some(ModifierMask::ALT)
    } else if code == KEY_LEFTMETA || code == KEY_RIGHTMETA {
        Some(ModifierMask::META)
    } else if code == KEY_CAPSLOCK {
        Some(ModifierMask::CAPS_LOCK)
    } else if code == KEY_NUMLOCK {
        Some(ModifierMask::NUM_LOCK)
    } else if code == KEY_SCROLLLOCK {
        Some(ModifierMask::SCROLL_LOCK)
    } else {
        None
    }
}

/// Check if a key is a modifier and return the corresponding flag.
pub fn modifier_flag_for_key(code: u16) -> (f: Option<u16>)
    ensures
        f == evdev_modifier_flag(code),
{
    if code == KEY_LEFTSHIFT || code == KEY_RIGHTSHIFT {
        Some(ModifierMask::SHIFT)
    } else if code == KEY_LEFTCTRL || code == KEY_RIGHTCTRL {
        Some(ModifierMask::CTRL)
    } else if code == KEY_LEFTALT || code == KEY_RIGHTALT {
        Some(ModifierMask::ALT)
    } else if code == KEY_LEFTMETA || code == KEY_RIGHTMETA {
        Some(ModifierMask::META)
    } else if code == KEY_CAPSLOCK {
        Some(ModifierMask::CAPS_LOCK)
    } else if code == KEY_NUMLOCK {
        Some(ModifierMask::NUM_LOCK)
    } else if code == KEY_SCROLLLOCK {
        Some(ModifierMask::SCROLL_LOCK)
    } else {
        None
    }
}

/// The modifier mask after an evdev key event (value 1 = press, 0 =
/// release, 2 = repeat).
pub open spec fn evdev_modifiers_after(m: u16, code: u16, value: i32) -> u16 {
    match evdev_modifier_flag(code) {
        Some(flag) => modifiers_after(
            m,
            flag,
            code == KEY_CAPSLOCK || code == KEY_NUMLOCK || code == KEY_SCROLLLOCK,
            value == 1,
            value == 0,
        ),
        None => m,
    }
}

/// The protocol event for an evdev event, given the modifier mask after it.
pub open spec fn evdev_event_kind(mods: ModifierMask, event_type: u16, code: u16, value: i32) -> Option<InputEventKind> {
    if event_type == EV_KEY {
        match evdev_mouse_button(code) {
            Some(button) => if value == 1 {
                Some(InputEventKind::MouseButtonDown { button })
            } else if value == 0 {
                Some(InputEventKind::MouseButtonUp { button })
            } else {
                None
            },
            None => if value == 1 || value == 2 {
                Some(InputEventKind::KeyDown { scan_code: code as u32, modifiers: mods })
            } else if value == 0 {
                Some(InputEventKind::KeyUp { scan_code: code as u32, modifiers: mods })
            } else {
                None
            },
        }
    } else if event_type == EV_REL {
        if code == REL_X {
            Some(InputEventKind::MouseMoveRelative { dx: value, dy: 0 })
        } else if code == REL_Y {
            Some(InputEventKind::MouseMoveRelative { dx: 0, dy: value })
        } else if code == REL_WHEEL {
            Some(InputEventKind::MouseScroll { dx: 0, dy: value })
        } else if code == REL_HWHEEL {
            Some(InputEventKind::MouseScroll { dx: value, dy: 0 })
        } else {
            None
        }
    } else if event_type == EV_ABS {
        if code == ABS_X {
            Some(InputEventKind::MouseMoveAbsolute { x: value, y: 0 })
        } else if code == ABS_Y {
            Some(InputEventKind::MouseMoveAbsolute { x: 0, y: value })
        } else {
            None
        }
    } else {
        None
    }
}

/// Translates one evdev event read from a captured device. A key event of
/// a modifier first updates the modifier mask; the event is then the
/// protocol event for it, carrying the updated mask (button repeats and
/// unknown axes and types give none).
pub fn translate_evdev_event(mods: &mut ModifierMask, event_type: u16, code: u16, value: i32) -> (k: Option<InputEventKind>)
    ensures
        final(mods).0 == (if event_type == EV_KEY { evdev_modifiers_after(old(mods).0, code, value) } else { old(mods).0 }),
        k == evdev_event_kind(*final(mods), event_type, code, value),
{
    if event_type == EV_KEY {
        if let Some(flag) = modifier_flag_for_key(code) {
            let lock = code == KEY_CAPSLOCK || code == KEY_NUMLOCK || code == KEY_SCROLLLOCK;
            apply_modifier(mods, flag, lock, value == 1, value == 0);
        }
        match key_to_mouse_button(code) {
            Some(button) => {
                if value == 1 {
                    Some(InputEventKind::MouseButtonDown { button })
                } else if value == 0 {
                    Some(InputEventKind::MouseButtonUp { button })
                } else {
                    None
                }
            },
            None => {
                let scan_code = code as u32;
                if value == 1 || value == 2 {
                    Some(InputEventKind::KeyDown { scan_code, modifiers: *mods })
                } else if value == 0 {
                    Some(InputEventKind::KeyUp { scan_code, modifiers: *mods })
                } else {
                    None
                }
            },
        }
    } else if event_type == EV_REL {
        if code == REL_X {
            Some(InputEventKind::MouseMoveRelative { dx: value, dy: 0 })
        } else if code == REL_Y {
            Some(InputEventKind::MouseMoveRelative { dx: 0, dy: value })
        } else if code == REL_WHEEL {
            Some(InputEventKind::MouseScroll { dx: 0, dy: value })
        } else if code == REL_HWHEEL {
            Some(InputEventKind::MouseScroll { dx: value, dy: 0 })
        } else {
            None
        }
    } else if event_type == EV_ABS {
        if code == ABS_X {
            Some(InputEventKind::MouseMoveAbsolute { x: value, y: 0 })
        } else if code == ABS_Y {
            Some(InputEventKind::MouseMoveAbsolute { x: 0, y: value })
        } else {
            None
        }
    } else {
        None
    }
}

/// Whether an evdev device is captured: a keyboard (key events, with the A
/// key) or a mouse (relative and key events, with the left button).
pub fn is_capture_device(has_key_events: bool, has_relative_events: bool, has_key_a: bool, has_btn_left: bool) -> (b: bool)
    ensures
        b == ((has_key_events && has_key_a) || (has_relative_events && has_key_events && has_btn_left)),
{
    let is_keyboard = has_key_events && has_key_a;
    let is_mouse = has_relative_events && has_key_events && has_btn_left;
    is_keyboard || is_mouse
}

/// The abstract state of evdev capture.
pub struct CaptureModel {
    pub active: bool,
    pub grabbed: bool,
}

/// Capture state of the evdev backend: whether capture runs and whether
/// devices are grabbed. A grab or ungrab while capturing stops capture (the
/// caller restarts it).
pub struct LinuxCaptureState {
    active: bool,
    grabbed: bool,
}

impl View for LinuxCaptureState {
    type V = CaptureModel;

    closed spec fn view(&self) -> CaptureModel {
        CaptureModel { active: self.active, grabbed: self.grabbed }
    }
}

impl LinuxCaptureState {
    /// Not capturing, not grabbed.
    pub fn new() -> (s: Self)
        ensures
            s@ == (CaptureModel { active: false, grabbed: false }),
    {
        LinuxCaptureState { active: false, grabbed: false }
    }

    /// Whether capture is active.
    pub fn is_active(&self) -> (b: bool)
        ensures
            b == self@.active,
    {
        self.active
    }

    /// Whether devices are grabbed.
    pub fn is_grabbed(&self) -> (b: bool)
        ensures
            b == self@.grabbed,
    {
        self.grabbed
    }

    /// Starts capture over the devices found: `AlreadyCapturing` while
    /// active, `DeviceOpen("No input devices found")` when there are none.
    pub fn start(&mut self, device_count: usize) -> (r: Result<(), InputCaptureError>)
        ensures
            old(self)@.active ==> (r matches Err(InputCaptureError::AlreadyCapturing) && final(self)@ == old(self)@),
            !old(self)@.active && device_count == 0 ==> (r matches Err(InputCaptureError::DeviceOpen(m))
                && m@ == "No input devices found"@ && final(self)@ == old(self)@),
            !old(self)@.active && device_count > 0 ==> (r is Ok
                && final(self)@ == (CaptureModel { active: true, grabbed: old(self)@.grabbed })),
    {
        if self.active {
            return Err(InputCaptureError::AlreadyCapturing);
        }
        if device_count == 0 {
            return Err(InputCaptureError::DeviceOpen(String::from_str("No input devices found")));
        }
        self.active = true;
        Ok(())
    }

    /// Stops capture: `NotCapturing` when not active.
    pub fn stop(&mut self) -> (r: Result<(), InputCaptureError>)
        ensures
            !old(self)@.active ==> (r matches Err(InputCaptureError::NotCapturing) && final(self)@ == old(self)@),
            old(self)@.active ==> (r is Ok && final(self)@ == (CaptureModel { active: false, grabbed: old(self)@.grabbed })),
    {
        if !self.active {
            return Err(InputCaptureError::NotCapturing);
        }
        self.active = false;
        Ok(())
    }

    /// Enables the grab. Returns whether capture had to be stopped (it was
    /// active and not yet grabbed); the caller then restarts capture.
    pub fn grab(&mut self) -> (stopped: bool)
        ensures
            stopped == (old(self)@.active && !old(self)@.grabbed),
            old(self)@.grabbed ==> final(self)@ == old(self)@,
            !old(self)@.grabbed ==> final(self)@ == (CaptureModel { active: false, grabbed: true }),
    {
        if self.grabbed {
            return false;
        }
        let was_active = self.active;
        self.active = false;
        self.grabbed = true;
        was_active
    }

    /// Disables the grab. Returns whether capture had to be stopped (it was
    /// active and grabbed); the caller then restarts capture.
    pub fn ungrab(&mut self) -> (stopped: bool)
        ensures
            stopped == (old(self)@.active && old(self)@.grabbed),
            !old(self)@.grabbed ==> final(self)@ == old(self)@,
            old(self)@.grabbed ==> final(self)@ == (CaptureModel { active: false, grabbed: false }),
    {
        if !self.grabbed {
            return false;
        }
        let was_active = self.active;
        self.active = false;
        self.grabbed = false;
        was_active
    }
}

// ---------------------------------------------------------------------------
// Linux (uinput) injection
// ---------------------------------------------------------------------------

/// The evdev key code of a mouse button (`Other` carries its own code).
pub open spec fn button_code(button: MouseButton) -> u16 {
    match button {
        MouseButton::Left => BTN_LEFT,
        MouseButton::Right => BTN_RIGHT,
        MouseButton::Middle => BTN_MIDDLE,
        MouseButton::Back => BTN_SIDE,
        MouseButton::Forward => BTN_EXTRA,
        MouseButton::Other(code) => code as u16,
    }
}

/// Translate a mouse button to an evdev key code.
pub fn mouse_button_to_key(button: &MouseButton) -> (code: u16)
    ensures
        code == button_code(*button),
{
    match button {
        MouseButton::Left => BTN_LEFT,
        MouseButton::Right => BTN_RIGHT,
        MouseButton::Middle => BTN_MIDDLE,
        MouseButton::Back => BTN_SIDE,
        MouseButton::Forward => BTN_EXTRA,
        MouseButton::Other(code) => *code as u16,
    }
}

/// Button law: a named button injected on one machine is captured as the
/// same button on the other.
pub proof fn law_button_roundtrip(button: MouseButton)
    requires
        !(button is Other),
    ensures
        evdev_mouse_button(button_code(button)) == Some(button),
{
}

/// One evdev event to emit.
#[derive(Debug, Clone, Copy, PartialEq, Eq, Structural)]
pub struct EvdevRecord {
    pub event_type: u16,
    pub code: u16,
    pub value: i32,
}

/// The virtual device that emits an injected event.
#[derive(Debug, Clone, Copy, PartialEq, Eq, Structural)]
pub enum InjectTarget {
    Keyboard,
    Mouse,
    /// Absolute moves are not injected (the virtual mouse has no absolute
    /// axes).
    Unsupported,
}

/// The evdev events that inject a protocol event, and the device that
/// emits them. Zero deltas are left out (the device is still required).
pub open spec fn evdev_injection(kind: InputEventKind) -> (InjectTarget, Seq<EvdevRecord>) {
    match kind {
        InputEventKind::KeyDown { scan_code, .. } =>
            (InjectTarget::Keyboard, seq![EvdevRecord { event_type: EV_KEY, code: (scan_code % 0x10000) as u16, value: 1 }]),
        InputEventKind::KeyUp { scan_code, .. } =>
            (InjectTarget::Keyboard, seq![EvdevRecord { event_type: EV_KEY, code: (scan_code % 0x10000) as u16, value: 0 }]),
        InputEventKind::MouseMoveRelative { dx, dy } => (InjectTarget::Mouse,
            (if dx != 0 { seq![EvdevRecord { event_type: EV_REL, code: REL_X, value: dx }] } else { Seq::empty() })
            + (if dy != 0 { seq![EvdevRecord { event_type: EV_REL, code: REL_Y, value: dy }] } else { Seq::empty() })),
        InputEventKind::MouseMoveAbsolute { .. } => (InjectTarget::Unsupported, Seq::empty()),
        InputEventKind::MouseButtonDown { button } =>
            (InjectTarget::Mouse, seq![EvdevRecord { event_type: EV_KEY, code: button_code(button), value: 1 }]),
        InputEventKind::MouseButtonUp { button } =>
            (InjectTarget::Mouse, seq![EvdevRecord { event_type: EV_KEY, code: button_code(button), value: 0 }]),
        InputEventKind::MouseScroll { dx, dy } => (InjectTarget::Mouse,
            (if dy != 0 { seq![EvdevRecord { event_type: EV_REL, code: REL_WHEEL, value: dy }] } else { Seq::empty() })
            + (if dx != 0 { seq![EvdevRecord { event_type: EV_REL, code: REL_HWHEEL, value: dx }] } else { Seq::empty() })),
    }
}

/// The injection of one protocol event through the virtual devices.
pub struct LinuxInjection {
    pub target: InjectTarget,
    pub events: Vec<EvdevRecord>,
}

/// Uninitialized-injector law: every event but an absolute move needs the
/// keyboard or the mouse device, so with neither device created
/// `plan_linux_injection` refuses it with `NotInitialized`; an absolute
/// move needs no device and plans nothing to emit.
pub proof fn law_uninitialized_injector(kind: InputEventKind)
    ensures
        !(kind is MouseMoveAbsolute) ==> (evdev_injection(kind).0 is Keyboard || evdev_injection(kind).0 is Mouse),
        kind is MouseMoveAbsolute ==> (evdev_injection(kind).0 is Unsupported && evdev_injection(kind).1.len() == 0),
{
}

/// Plans the injection of a protocol event: the device and the evdev
/// events to emit. `NotInitialized` when the device it needs has not been
/// created.
pub fn plan_linux_injection(kind: InputEventKind, keyboard_ready: bool, mouse_ready: bool) -> (r: Result<LinuxInjection, InputInjectionError>)
    ensures
        ({
            let (target, events) = evdev_injection(kind);
            if (target is Keyboard && !keyboard_ready) || (target is Mouse && !mouse_ready) {
                r matches Err(InputInjectionError::NotInitialized)
            } else {
                r matches Ok(p) && p.target == target && p.events@ == events
            }
        }),
{
    let mut events: Vec<EvdevRecord> = Vec::new();
    let target = match kind {
        InputEventKind::KeyDown { scan_code, .. } => {
            events.push(EvdevRecord { event_type: EV_KEY, code: (scan_code % 0x10000) as u16, value: 1 });
            InjectTarget::Keyboard
        },
        InputEventKind::KeyUp { scan_code, .. } => {
            events.push(EvdevRecord { event_type: EV_KEY, code: (scan_code % 0x10000) as u16, value: 0 });
            InjectTarget::Keyboard
        },
        InputEventKind::MouseMoveRelative { dx, dy } => {
            if dx != 0 {
                events.push(EvdevRecord { event_type: EV_REL, code: REL_X, value: dx });
            }
            if dy != 0 {
                events.push(EvdevRecord { event_type: EV_REL, code: REL_Y, value: dy });
            }
            InjectTarget::Mouse
        },
        InputEventKind::MouseMoveAbsolute { .. } => InjectTarget::Unsupported,
        InputEventKind::MouseButtonDown { button } => {
            events.push(EvdevRecord { event_type: EV_KEY, code: mouse_button_to_key(&button), value: 1 });
            InjectTarget::Mouse
        },
        InputEventKind::MouseButtonUp { button } => {
            events.push(EvdevRecord { event_type: EV_KEY, code: mouse_button_to_key(&button), value: 0 });
            InjectTarget::Mouse
        },
        InputEventKind::MouseScroll { dx, dy } => {
            if dy != 0 {
                events.push(EvdevRecord { event_type: EV_REL, code: REL_WHEEL, value: dy });
            }
            if dx != 0 {
                events.push(EvdevRecord { event_type: EV_REL, code: REL_HWHEEL, value: dx });
            }
            InjectTarget::Mouse
        },
    };
    proof {
        let (t, e) = evdev_injection(kind);
        assert(events@ =~= e);
    }
    match target {
        InjectTarget::Keyboard => if !keyboard_ready {
            return Err(InputInjectionError::NotInitialized);
        },
        InjectTarget::Mouse => if !mouse_ready {
            return Err(InputInjectionError::NotInitialized);
        },
        InjectTarget::Unsupported => {},
    }
    Ok(LinuxInjection { target, events })
}

/// Injection law: a key or button event injected through uinput is read
/// back by capture as the same event (for key codes below 0x10000 that are
/// not mouse buttons, and for the named buttons).
pub proof fn law_evdev_roundtrip(kind: InputEventKind, mods: ModifierMask)
    requires
        match kind {
            InputEventKind::KeyDown { scan_code, modifiers } | InputEventKind::KeyUp { scan_code, modifiers } =>
                scan_code < 0x10000 && evdev_mouse_button(scan_code as u16) is None && modifiers == mods,
            InputEventKind::MouseButtonDown { button } | InputEventKind::MouseButtonUp { button } => !(button is Other),
            _ => false,
        },
    ensures
        ({
            let rec = evdev_injection(kind).1[0];
            evdev_event_kind(mods, rec.event_type, rec.code, rec.value) == Some(kind)
        }),
{
}

/// Motion law: injected relative motion and scrolling are captured back as
/// the same motion, axis by axis. Each non-zero component is one evdev
/// event, the horizontal one first for motion and the vertical one first
/// for scrolling, and capturing it gives a move (or scroll) along that axis
/// only, by the same amount; a zero move emits nothing.
pub proof fn law_motion_roundtrip(dx: i32, dy: i32, mods: ModifierMask)
    ensures
        ({
            let recs = evdev_injection(InputEventKind::MouseMoveRelative { dx, dy }).1;
            let cap = |r: EvdevRecord| evdev_event_kind(mods, r.event_type, r.code, r.value);
            &&& recs.len() == (if dx != 0 { 1int } else { 0 }) + (if dy != 0 { 1int } else { 0 })
            &&& dx != 0 ==> cap(recs[0]) == Some(InputEventKind::MouseMoveRelative { dx, dy: 0 })
            &&& dy != 0 ==> cap(recs[recs.len() - 1]) == Some(InputEventKind::MouseMoveRelative { dx: 0, dy })
        }),
        ({
            let recs = evdev_injection(InputEventKind::MouseScroll { dx, dy }).1;
            let cap = |r: EvdevRecord| evdev_event_kind(mods, r.event_type, r.code, r.value);
            &&& recs.len() == (if dx != 0 { 1int } else { 0 }) + (if dy != 0 { 1int } else { 0 })
            &&& dy != 0 ==> cap(recs[0]) == Some(InputEventKind::MouseScroll { dx: 0, dy })
            &&& dx != 0 ==> cap(recs[recs.len() - 1]) == Some(InputEventKind::MouseScroll { dx, dy: 0 })
        }),
        forall|v: i32| #[trigger] evdev_event_kind(mods, EV_REL, REL_Y, v) == Some(InputEventKind::MouseMoveRelative { dx: 0, dy: v }),
        forall|v: i32| #[trigger] evdev_event_kind(mods, EV_REL, REL_X, v) == Some(InputEventKind::MouseMoveRelative { dx: v, dy: 0 }),
{
    let recs = evdev_injection(InputEventKind::MouseMoveRelative { dx, dy }).1;
    if dx != 0 && dy != 0 {
        assert(recs[0] == EvdevRecord { event_type: EV_REL, code: REL_X, value: dx });
        assert(recs[1] == EvdevRecord { event_type: EV_REL, code: REL_Y, value: dy });
    }
    let srecs = evdev_injection(InputEventKind::MouseScroll { dx, dy }).1;
    if dx != 0 && dy != 0 {
        assert(srecs[0] == EvdevRecord { event_type: EV_REL, code: REL_WHEEL, value: dy });
        assert(srecs[1] == EvdevRecord { event_type: EV_REL, code: REL_HWHEEL, value: dx });
    }
}

// ---------------------------------------------------------------------------
// Windows (low-level hooks) capture
// ---------------------------------------------------------------------------

pub const WM_KEYDOWN: u32 = 0x0100;
pub const WM_KEYUP: u32 = 0x0101;
pub const WM_SYSKEYDOWN: u32 = 0x0104;
pub const WM_SYSKEYUP: u32 = 0x0105;
pub const WM_MOUSEMOVE: u32 = 0x0200;
pub const WM_LBUTTONDOWN: u32 = 0x0201;
pub const WM_LBUTTONUP: u32 = 0x0202;
pub const WM_RBUTTONDOWN: u32 = 0x0204;
pub const WM_RBUTTONUP: u32 = 0x0205;
pub const WM_MBUTTONDOWN: u32 = 0x0207;
pub const WM_MBUTTONUP: u32 = 0x0208;
pub const WM_MOUSEWHEEL: u32 = 0x020A;
pub const WM_XBUTTONDOWN: u32 = 0x020B;
pub const WM_XBUTTONUP: u32 = 0x020C;
pub const WM_MOUSEHWHEEL: u32 = 0x020E;

/// Keyboard hook flag: extended key.
pub const LLKHF_EXTENDED: u32 = 0x01;
/// Keyboard hook flag: key released.
pub const LLKHF_UP: u32 = 0x80;

/// XBUTTON1 identifier (high word of the mouse data).
pub const XBUTTON1: u32 = 0x0001;
/// XBUTTON2 identifier.
pub const XBUTTON2: u32 = 0x0002;

/// The modifier flag of a Windows scan code (Ctrl and Alt whether extended
/// or not).
pub open spec fn scan_code_modifier_flag(scan_code: u32) -> Option<u16> {
    if scan_code == 0x2A || scan_code == 0x36 {
        Some(ModifierMask::SHIFT)
    } else if scan_code == 0x1D {
        Some(ModifierMask::CTRL)
    } else if scan_code == 0x38 {
        Some(ModifierMask::ALT)
    } else if scan_code == 0x5B || scan_code == 0x5C {
        Some(ModifierMask::META)
    } else if scan_code == 0x3A {
        Some(ModifierMask::CAPS_LOCK)
    } else if scan_code == 0x45 {
        Some(ModifierMask::NUM_LOCK)
    } else if scan_code == 0x46 {
        Some(ModifierMask::SCROLL_LOCK)
    } else {
        None
    }
}

/// Check if a scan code corresponds to a modifier key and return the flag.
pub fn modifier_flag_for_scan_code(scan_code: u32, is_extended: bool) -> (f: Option<u16>)
    ensures
        f == scan_code_modifier_flag(scan_code),
{
    if scan_code == 0x2A || scan_code == 0x36 {
        Some(ModifierMask::SHIFT)
    } else if scan_code == 0x1D && !is_extended {
        Some(ModifierMask::CTRL)
    } else if scan_code == 0x1D && is_extended {
        Some(ModifierMask::CTRL)
    } else if scan_code == 0x38 && !is_extended {
        Some(ModifierMask::ALT)
    } else if scan_code == 0x38 && is_extended {
        Some(ModifierMask::ALT)
    } else if scan_code == 0x5B || scan_code == 0x5C {
        Some(ModifierMask::META)
    } else if scan_code == 0x3A {
        Some(ModifierMask::CAPS_LOCK)
    } else if scan_code == 0x45 {
        Some(ModifierMask::NUM_LOCK)
    } else if scan_code == 0x46 {
        Some(ModifierMask::SCROLL_LOCK)
    } else {
        None
    }
}

/// The signed wheel delta in the high word of the mouse data.
pub open spec fn wheel_delta(mouse_data: u32) -> i32 {
    let hw = mouse_data / 0x10000;
    if hw >= 0x8000 { (hw - 0x10000) as i32 } else { hw as i32 }
}

fn high_word_signed(mouse_data: u32) -> (d: i32)
    ensures
        d == wheel_delta(mouse_data),
{
    let hw: u32 = mouse_data / 0x10000;
    if hw >= 0x8000 {
        (hw as i32) - 0x10000
    } else {
        hw as i32
    }
}

/// What a hook does with one event: the protocol event to forward, and
/// whether the event is swallowed (not passed on to the system), which
/// happens when an event was produced while input is grabbed.
pub struct HookDecision {
    pub event: Option<InputEventKind>,
    pub swallow: bool,
}

/// The abstract state shared by the hooks.
pub struct HookModel {
    pub modifiers: u16,
    pub last_mouse_pos: Option<(i32, i32)>,
}

/// The protocol event of a keyboard hook message, given the mask after it.
pub open spec fn keyboard_hook_kind(mods: ModifierMask, msg: u32, scan_code: u32, flags: u32) -> Option<InputEventKind> {
    let full = if flags & LLKHF_EXTENDED != 0 { 0xE000 | scan_code } else { scan_code };
    if msg == WM_KEYDOWN || msg == WM_SYSKEYDOWN {
        Some(InputEventKind::KeyDown { scan_code: full, modifiers: mods })
    } else if msg == WM_KEYUP || msg == WM_SYSKEYUP {
        Some(InputEventKind::KeyUp { scan_code: full, modifiers: mods })
    } else {
        None
    }
}

/// The modifier mask after a keyboard hook event.
pub open spec fn hook_modifiers_after(m: u16, scan_code: u32, flags: u32) -> u16 {
    match scan_code_modifier_flag(scan_code) {
        Some(flag) => modifiers_after(
            m,
            flag,
            scan_code == 0x3A || scan_code == 0x45 || scan_code == 0x46,
            flags & LLKHF_UP == 0,
            flags & LLKHF_UP != 0,
        ),
        None => m,
    }
}

/// The protocol event of a mouse hook message (moves are relative to the
/// last position; the first move gives none).
pub open spec fn mouse_hook_kind(last: Option<(i32, i32)>, msg: u32, x: i32, y: i32, mouse_data: u32) -> Option<InputEventKind> {
    let xb = if (mouse_data / 0x10000) % 0x10000 == XBUTTON1 { MouseButton::Back } else { MouseButton::Forward };
    if msg == WM_MOUSEMOVE {
        match last {
            Some((lx, ly)) => Some(InputEventKind::MouseMoveRelative { dx: (x - lx) as i32, dy: (y - ly) as i32 }),
            None => None,
        }
    } else if msg == WM_LBUTTONDOWN {
        Some(InputEventKind::MouseButtonDown { button: MouseButton::Left })
    } else if msg == WM_LBUTTONUP {
        Some(InputEventKind::MouseButtonUp { button: MouseButton::Left })
    } else if msg == WM_RBUTTONDOWN {
        Some(InputEventKind::MouseButtonDown { button: MouseButton::Right })
    } else if msg == WM_RBUTTONUP {
        Some(InputEventKind::MouseButtonUp { button: MouseButton::Right })
    } else if msg == WM_MBUTTONDOWN {
        Some(InputEventKind::MouseButtonDown { button: MouseButton::Middle })
    } else if msg == WM_MBUTTONUP {
        Some(InputEventKind::MouseButtonUp { button: MouseButton::Middle })
    } else if msg == WM_XBUTTONDOWN {
        Some(InputEventKind::MouseButtonDown { button: xb })
    } else if msg == WM_XBUTTONUP {
        Some(InputEventKind::MouseButtonUp { button: xb })
    } else if msg == WM_MOUSEWHEEL {
        Some(InputEventKind::MouseScroll { dx: 0, dy: wheel_delta(mouse_data) })
    } else if msg == WM_MOUSEHWHEEL {
        Some(InputEventKind::MouseScroll { dx: wheel_delta(mouse_data), dy: 0 })
    } else {
        None
    }
}

/// State of the low-level hooks: the modifier mask and the last cursor
/// position.
pub struct WindowsHookState {
    modifiers: ModifierMask,
    last_mouse_pos: Option<(i32, i32)>,
}

impl View for WindowsHookState {
    type V = HookModel;

    closed spec fn view(&self) -> HookModel {
        HookModel { modifiers: self.modifiers.0, last_mouse_pos: self.last_mouse_pos }
    }
}

impl WindowsHookState {
    /// The state the hooks start with: no modifiers, no known position.
    pub fn new() -> (s: Self)
        ensures
            s@ == (HookModel { modifiers: 0, last_mouse_pos: None }),
    {
        WindowsHookState { modifiers: ModifierMask(0), last_mouse_pos: None }
    }

    /// The current modifier mask.
    pub fn modifiers(&self) -> (m: ModifierMask)
        ensures
            m.0 == self@.modifiers,
    {
        self.modifiers
    }

    /// Low-level keyboard hook: for a message the hook handles
    /// (`n_code >= 0`), updates the modifiers (lock keys toggle on press,
    /// others follow the key) and produces the key event (extended keys get
    /// the `0xE0` prefix) with the updated mask.
    pub fn keyboard_hook(&mut self, n_code: i32, msg: u32, scan_code: u32, flags: u32, grabbed: bool) -> (d: HookDecision)
        ensures
            n_code < 0 ==> final(self)@ == old(self)@ && d.event is None && !d.swallow,
            n_code >= 0 ==> {
                &&& final(self)@ == (HookModel {
                    modifiers: hook_modifiers_after(old(self)@.modifiers, scan_code, flags),
                    ..old(self)@
                })
                &&& d.event == keyboard_hook_kind(ModifierMask(final(self)@.modifiers), msg, scan_code, flags)
                &&& d.swallow == (d.event is Some && grabbed)
            },
    {
        if n_code < 0 {
            return HookDecision { event: None, swallow: false };
        }
        let is_extended = flags & LLKHF_EXTENDED != 0;
        let is_up = flags & LLKHF_UP != 0;
        let full_scan_code = if is_extended { 0xE000 | scan_code } else { scan_code };
        if let Some(flag) = modifier_flag_for_scan_code(scan_code, is_extended) {
            let lock = scan_code == 0x3A || scan_code == 0x45 || scan_code == 0x46;
            apply_modifier(&mut self.modifiers, flag, lock, !is_up, is_up);
        }
        let modifiers = self.modifiers;
        let event = if msg == WM_KEYDOWN || msg == WM_SYSKEYDOWN {
            Some(InputEventKind::KeyDown { scan_code: full_scan_code, modifiers })
        } else if msg == WM_KEYUP || msg == WM_SYSKEYUP {
            Some(InputEventKind::KeyUp { scan_code: full_scan_code, modifiers })
        } else {
            None
        };
        let swallow = event.is_some() && grabbed;
        HookDecision { event, swallow }
    }

    /// Low-level mouse hook: for a message the hook handles (`n_code >=
    /// 0`), produces the mouse event; a move becomes the delta from the last
    /// position, which is then remembered.
    pub fn mouse_hook(&mut self, n_code: i32, msg: u32, x: i32, y: i32, mouse_data: u32, grabbed: bool) -> (d: HookDecision)
        requires
            n_code >= 0 && msg == WM_MOUSEMOVE ==> (old(self)@.last_mouse_pos matches Some((lx, ly)) ==> {
                &&& i32::MIN <= x - lx <= i32::MAX
                &&& i32::MIN <= y - ly <= i32::MAX
            }),
        ensures
            n_code < 0 ==> final(self)@ == old(self)@ && d.event is None && !d.swallow,
            n_code >= 0 ==> {
                &&& final(self)@ == (if msg == WM_MOUSEMOVE {
                    HookModel { last_mouse_pos: Some((x, y)), ..old(self)@ }
                } else {
                    old(self)@
                })
                &&& d.event == mouse_hook_kind(old(self)@.last_mouse_pos, msg, x, y, mouse_data)
                &&& d.swallow == (d.event is Some && grabbed)
            },
    {
        if n_code < 0 {
            return HookDecision { event: None, swallow: false };
        }
        let xbutton = (mouse_data / 0x10000) % 0x10000;
        let xb = if xbutton == XBUTTON1 { MouseButton::Back } else { MouseButton::Forward };
        let event = if msg == WM_MOUSEMOVE {
            let delta = match self.last_mouse_pos {
                Some((lx, ly)) => Some(InputEventKind::MouseMoveRelative { dx: x - lx, dy: y - ly }),
                None => None,
            };
            self.last_mouse_pos = Some((x, y));
            delta
        } else if msg == WM_LBUTTONDOWN {
            Some(InputEventKind::MouseButtonDown { button: MouseButton::Left })
        } else if msg == WM_LBUTTONUP {
            Some(InputEventKind::MouseButtonUp { button: MouseButton::Left })
        } else if msg == WM_RBUTTONDOWN {
            Some(InputEventKind::MouseButtonDown { button: MouseButton::Right })
        } else if msg == WM_RBUTTONUP {
            Some(InputEventKind::MouseButtonUp { button: MouseButton::Right })
        } else if msg == WM_MBUTTONDOWN {
            Some(InputEventKind::MouseButtonDown { button: MouseButton::Middle })
        } else if msg == WM_MBUTTONUP {
            Some(InputEventKind::MouseButtonUp { button: MouseButton::Middle })
        } else if msg == WM_XBUTTONDOWN {
            Some(InputEventKind::MouseButtonDown { button: xb })
        } else if msg == WM_XBUTTONUP {
            Some(InputEventKind::MouseButtonUp { button: xb })
        } else if msg == WM_MOUSEWHEEL {
            Some(InputEventKind::MouseScroll { dx: 0, dy: high_word_signed(mouse_data) })
        } else if msg == WM_MOUSEHWHEEL {
            Some(InputEventKind::MouseScroll { dx: high_word_signed(mouse_data), dy: 0 })
        } else {
            None
        };
        let swallow = event.is_some() && grabbed;
        HookDecision { event, swallow }
    }
}

/// Capture state of the hook backend. Unlike evdev capture, grabbing never
/// stops capture: the hooks read the flag on every event.
pub struct WindowsCaptureState {
    active: bool,
    grabbed: bool,
}

impl View for WindowsCaptureState {
    type V = CaptureModel;

    closed spec fn view(&self) -> CaptureModel {
        CaptureModel { active: self.active, grabbed: self.grabbed }
    }
}

impl WindowsCaptureState {
    /// Not capturing, not grabbed.
    pub fn new() -> (s: Self)
        ensures
            s@ == (CaptureModel { active: false, grabbed: false }),
    {
        WindowsCaptureState { active: false, grabbed: false }
    }

    /// Whether capture is active.
    pub fn is_active(&self) -> (b: bool)
        ensures
            b == self@.active,
    {
        self.active
    }

    /// Whether input is grabbed.
    pub fn is_grabbed(&self) -> (b: bool)
        ensures
            b == self@.grabbed,
    {
        self.grabbed
    }

    /// Starts capture: `AlreadyCapturing` while active; otherwise capture
    /// becomes active and the hooks start from a fresh state.
    pub fn start(&mut self) -> (r: Result<WindowsHookState, InputCaptureError>)
        ensures
            old(self)@.active ==> (r matches Err(InputCaptureError::AlreadyCapturing) && final(self)@ == old(self)@),
            !old(self)@.active ==> (r matches Ok(h) && h@ == (HookModel { modifiers: 0, last_mouse_pos: None })
                && final(self)@ == (CaptureModel { active: true, grabbed: old(self)@.grabbed })),
    {
        if self.active {
            return Err(InputCaptureError::AlreadyCapturing);
        }
        self.active = true;
        Ok(WindowsHookState::new())
    }

    /// Stops capture: `NotCapturing` when not active.
    pub fn stop(&mut self) -> (r: Result<(), InputCaptureError>)
        ensures
            !old(self)@.active ==> (r matches Err(InputCaptureError::NotCapturing) && final(self)@ == old(self)@),
            old(self)@.active ==> (r is Ok && final(self)@ == (CaptureModel { active: false, grabbed: old(self)@.grabbed })),
    {
        if !self.active {
            return Err(InputCaptureError::NotCapturing);
        }
        self.active = false;
        Ok(())
    }

    /// Enables the grab.
    pub fn grab(&mut self)
        ensures
            final(self)@ == (CaptureModel { grabbed: true, ..old(self)@ }),
    {
        self.grabbed = true;
    }

    /// Disables the grab.
    pub fn ungrab(&mut self)
        ensures
            final(self)@ == (CaptureModel { grabbed: false, ..old(self)@ }),
    {
        self.grabbed = false;
    }
}

// ---------------------------------------------------------------------------
// Windows (SendInput) injection
// ---------------------------------------------------------------------------

pub const KEYEVENTF_EXTENDEDKEY: u32 = 0x0001;
pub const KEYEVENTF_KEYUP: u32 = 0x0002;
pub const KEYEVENTF_SCANCODE: u32 = 0x0008;

pub const MOUSEEVENTF_MOVE: u32 = 0x0001;
pub const MOUSEEVENTF_LEFTDOWN: u32 = 0x0002;
pub const MOUSEEVENTF_LEFTUP: u32 = 0x0004;
pub const MOUSEEVENTF_RIGHTDOWN: u32 = 0x0008;
pub const MOUSEEVENTF_RIGHTUP: u32 = 0x0010;
pub const MOUSEEVENTF_MIDDLEDOWN: u32 = 0x0020;
pub const MOUSEEVENTF_MIDDLEUP: u32 = 0x0040;
pub const MOUSEEVENTF_XDOWN: u32 = 0x0080;
pub const MOUSEEVENTF_XUP: u32 = 0x0100;
pub const MOUSEEVENTF_WHEEL: u32 = 0x0800;
pub const MOUSEEVENTF_HWHEEL: u32 = 0x1000;
pub const MOUSEEVENTF_ABSOLUTE: u32 = 0x8000;

/// One `SendInput` record.
#[derive(Debug, Clone, Copy, PartialEq, Eq, Structural)]
pub enum SendInputRecord {
    Keyboard { scan: u16, flags: u32 },
    Mouse { dx: i32, dy: i32, mouse_data: u32, flags: u32 },
}

/// The keyboard record for a scan code: scan-code input, extended when the
/// code carries a prefix above the low byte (which is then stripped),
/// released on key up.
pub open spec fn keyboard_record(scan_code: u32, is_key_up: bool) -> SendInputRecord {
    let ext = scan_code > 0xFF;
    let flags = KEYEVENTF_SCANCODE | (if ext { KEYEVENTF_EXTENDEDKEY } else { 0 }) | (if is_key_up { KEYEVENTF_KEYUP } else { 0 });
    let sc = if ext { scan_code & 0xFF } else { scan_code };
    SendInputRecord::Keyboard { scan: (sc % 0x10000) as u16, flags }
}

/// Builds the keyboard record of a key event.
pub fn send_keyboard_input(scan_code: u32, is_key_up: bool) -> (r: SendInputRecord)
    ensures
        r == keyboard_record(scan_code, is_key_up),
{
    let mut flags = KEYEVENTF_SCANCODE;
    let mut sc = scan_code;
    if sc > 0xFF {
        flags = flags | KEYEVENTF_EXTENDEDKEY;
        sc = sc & 0xFF;
    }
    if is_key_up {
        flags = flags | KEYEVENTF_KEYUP;
    }
    proof {
        assert(KEYEVENTF_SCANCODE | 0 == KEYEVENTF_SCANCODE) by (bit_vector);
        assert(KEYEVENTF_SCANCODE | KEYEVENTF_EXTENDEDKEY | 0 == KEYEVENTF_SCANCODE | KEYEVENTF_EXTENDEDKEY) by (bit_vector);
        assert(KEYEVENTF_SCANCODE | 0 | KEYEVENTF_KEYUP == KEYEVENTF_SCANCODE | KEYEVENTF_KEYUP) by (bit_vector);
        assert(KEYEVENTF_SCANCODE | 0 | 0 == KEYEVENTF_SCANCODE) by (bit_vector);
    }
    SendInputRecord::Keyboard { scan: (sc % 0x10000) as u16, flags }
}

/// The mouse flags and data of a button press or release.
pub open spec fn button_flags(button: MouseButton, is_down: bool) -> (u32, u32) {
    match button {
        MouseButton::Left => (if is_down { MOUSEEVENTF_LEFTDOWN } else { MOUSEEVENTF_LEFTUP }, 0),
        MouseButton::Right => (if is_down { MOUSEEVENTF_RIGHTDOWN } else { MOUSEEVENTF_RIGHTUP }, 0),
        MouseButton::Middle => (if is_down { MOUSEEVENTF_MIDDLEDOWN } else { MOUSEEVENTF_MIDDLEUP }, 0),
        MouseButton::Back => (if is_down { MOUSEEVENTF_XDOWN } else { MOUSEEVENTF_XUP }, XBUTTON1),
        MouseButton::Forward => (if is_down { MOUSEEVENTF_XDOWN } else { MOUSEEVENTF_XUP }, XBUTTON2),
        MouseButton::Other(code) => (if is_down { MOUSEEVENTF_XDOWN } else { MOUSEEVENTF_XUP }, code as u32),
    }
}

/// Map a mouse button to its `SendInput` flags and mouse data.
pub fn mouse_button_flags(button: &MouseButton, is_down: bool) -> (r: (u32, u32))
    ensures
        r == button_flags(*button, is_down),
{
    match button {
        MouseButton::Left => (if is_down { MOUSEEVENTF_LEFTDOWN } else { MOUSEEVENTF_LEFTUP }, 0),
        MouseButton::Right => (if is_down { MOUSEEVENTF_RIGHTDOWN } else { MOUSEEVENTF_RIGHTUP }, 0),
        MouseButton::Middle => (if is_down { MOUSEEVENTF_MIDDLEDOWN } else { MOUSEEVENTF_MIDDLEUP }, 0),
        MouseButton::Back => (if is_down { MOUSEEVENTF_XDOWN } else { MOUSEEVENTF_XUP }, XBUTTON1),
        MouseButton::Forward => (if is_down { MOUSEEVENTF_XDOWN } else { MOUSEEVENTF_XUP }, XBUTTON2),
        MouseButton::Other(code) => (if is_down { MOUSEEVENTF_XDOWN } else { MOUSEEVENTF_XUP }, *code as u32),
    }
}

/// The `u32` with the same bits as an `i32` (two's complement).
pub open spec fn as_u32_bits(v: i32) -> u32 {
    if v >= 0 { v as u32 } else { (v + 0x1_0000_0000) as u32 }
}

fn i32_bits(v: i32) -> (r: u32)
    ensures
        r == as_u32_bits(v),
{
    if v >= 0 {
        v as u32
    } else {
        ((v as i64) + 0x1_0000_0000i64) as u32
    }
}

/// Integer division rounding toward zero, as Rust's `/` on signed
/// integers.
pub open spec fn trunc_div(a: int, b: int) -> int {
    let q = (if a >= 0 { a } else { -a }) / (if b >= 0 { b } else { -b });
    if (a >= 0) == (b >= 0) { q } else { -q }
}

/// Rust's `/` on `i32` (for a non-zero divisor and a dividend other than
/// `i32::MIN`).
fn div_toward_zero(a: i32, b: i32) -> (q: i32)
    requires
        b != 0,
        a != i32::MIN,
    ensures
        q == trunc_div(a as int, b as int),
{
    let aa: i64 = if a >= 0 { a as i64 } else { -(a as i64) };
    let bb: i64 = if b >= 0 { b as i64 } else { -(b as i64) };
    let q: i64 = aa / bb;
    proof {
        assert(0 <= q <= aa) by (nonlinear_arith)
            requires
                aa >= 0,
                bb >= 1,
                q == aa / bb,
        ;
    }
    if (a >= 0) == (b >= 0) {
        q as i32
    } else {
        -(q as i32)
    }
}

/// The `SendInput` records that inject a protocol event. Absolute moves are
/// scaled to 0..65535 over the screen size.
pub open spec fn send_input_records(kind: InputEventKind, screen_width: i32, screen_height: i32) -> Seq<SendInputRecord> {
    match kind {
        InputEventKind::KeyDown { scan_code, .. } => seq![keyboard_record(scan_code, false)],
        InputEventKind::KeyUp { scan_code, .. } => seq![keyboard_record(scan_code, true)],
        InputEventKind::MouseMoveRelative { dx, dy } =>
            seq![SendInputRecord::Mouse { dx, dy, mouse_data: 0, flags: MOUSEEVENTF_MOVE }],
        InputEventKind::MouseMoveAbsolute { x, y } => seq![SendInputRecord::Mouse {
            dx: trunc_div(x * 65535, screen_width as int) as i32,
            dy: trunc_div(y * 65535, screen_height as int) as i32,
            mouse_data: 0,
            flags: MOUSEEVENTF_MOVE | MOUSEEVENTF_ABSOLUTE,
        }],
        InputEventKind::MouseButtonDown { button } =>
            seq![SendInputRecord::Mouse { dx: 0, dy: 0, mouse_data: button_flags(button, true).1, flags: button_flags(button, true).0 }],
        InputEventKind::MouseButtonUp { button } =>
            seq![SendInputRecord::Mouse { dx: 0, dy: 0, mouse_data: button_flags(button, false).1, flags: button_flags(button, false).0 }],
        InputEventKind::MouseScroll { dx, dy } =>
            (if dy != 0 { seq![SendInputRecord::Mouse { dx: 0, dy: 0, mouse_data: as_u32_bits(dy), flags: MOUSEEVENTF_WHEEL }] } else { Seq::empty() })
            + (if dx != 0 { seq![SendInputRecord::Mouse { dx: 0, dy: 0, mouse_data: as_u32_bits(dx), flags: MOUSEEVENTF_HWHEEL }] } else { Seq::empty() }),
    }
}

/// Button injection law (Windows): a button press is injected as one
/// `SendInput` mouse record with no motion and the button's press flag
/// (LEFTDOWN, RIGHTDOWN, MIDDLEDOWN, or XDOWN with the X button in the
/// mouse data), and a release as the same record with the matching release
/// flag; a press is never sent with a release flag.
pub proof fn law_button_injection(button: MouseButton, w: i32, h: i32)
    ensures
        ({
            let down = send_input_records(InputEventKind::MouseButtonDown { button }, w, h);
            let up = send_input_records(InputEventKind::MouseButtonUp { button }, w, h);
            &&& down.len() == 1 && up.len() == 1
            &&& down[0] matches SendInputRecord::Mouse { dx: 0, dy: 0, flags: fd, mouse_data: md }
            &&& up[0] matches SendInputRecord::Mouse { dx: 0, dy: 0, flags: fu, mouse_data: mu }
            &&& fd & (MOUSEEVENTF_LEFTUP | MOUSEEVENTF_RIGHTUP | MOUSEEVENTF_MIDDLEUP | MOUSEEVENTF_XUP) == 0
            &&& fu & (MOUSEEVENTF_LEFTDOWN | MOUSEEVENTF_RIGHTDOWN | MOUSEEVENTF_MIDDLEDOWN | MOUSEEVENTF_XDOWN) == 0
            &&& md == mu
            &&& match button {
                MouseButton::Left => fd == 0x0002 && fu == 0x0004,
                MouseButton::Right => fd == 0x0008 && fu == 0x0010,
                MouseButton::Middle => fd == 0x0020 && fu == 0x0040,
                MouseButton::Back => fd == 0x0080 && fu == 0x0100 && md == 1,
                MouseButton::Forward => fd == 0x0080 && fu == 0x0100 && md == 2,
                MouseButton::Other(c) => fd == 0x0080 && fu == 0x0100 && md == c as u32,
            }
        }),
{
    assert((0x0002u32 | 0x0008u32 | 0x0020u32 | 0x0080u32) == 0xAAu32) by (bit_vector);
    assert((0x0004u32 | 0x0010u32 | 0x0040u32 | 0x0100u32) == 0x154u32) by (bit_vector);
    assert(0x0002u32 & 0x154u32 == 0 && 0x0008u32 & 0x154u32 == 0 && 0x0020u32 & 0x154u32 == 0 && 0x0080u32 & 0x154u32 == 0) by (bit_vector);
    assert(0x0004u32 & 0xAAu32 == 0 && 0x0010u32 & 0xAAu32 == 0 && 0x0040u32 & 0xAAu32 == 0 && 0x0100u32 & 0xAAu32 == 0) by (bit_vector);
}

/// Windows input injector using `SendInput`: the records are built here and
/// sent by the program.
pub struct WindowsInputInjector {
    initialized: bool,
}

impl WindowsInputInjector {
    /// An injector that is not initialized yet.
    pub fn new() -> (w: Self)
        ensures
            !w.is_initialized(),
    {
        WindowsInputInjector { initialized: false }
    }

    /// Whether the injector has been initialized.
    pub closed spec fn is_initialized(&self) -> bool {
        self.initialized
    }

    /// Whether the injector has been initialized.
    pub fn initialized(&self) -> (b: bool)
        ensures
            b == self.is_initialized(),
    {
        self.initialized
    }

    /// Initializes the injector.
    pub fn init(&mut self) -> (r: Result<(), InputInjectionError>)
        ensures
            r is Ok,
            final(self).is_initialized(),
    {
        self.initialized = true;
        Ok(())
    }

    /// Shuts the injector down.
    pub fn shutdown(&mut self) -> (r: Result<(), InputInjectionError>)
        ensures
            r is Ok,
            !final(self).is_initialized(),
    {
        self.initialized = false;
        Ok(())
    }

    /// The `SendInput` records for a protocol event, in the order they are
    /// sent. `NotInitialized` before `init`; an absolute move needs the
    /// screen size (`GetSystemMetrics`), and a zero width or height is
    /// `InjectionFailed("Could not determine screen dimensions")`.
    pub fn inject(&self, kind: InputEventKind, screen_width: i32, screen_height: i32) -> (r: Result<Vec<SendInputRecord>, InputInjectionError>)
        requires
            self.is_initialized() && screen_width != 0 && screen_height != 0 ==> (kind matches InputEventKind::MouseMoveAbsolute { x, y } ==> {
                &&& i32::MIN <= x * 65535 <= i32::MAX
                &&& i32::MIN <= y * 65535 <= i32::MAX
            }),
        ensures
            !self.is_initialized() ==> r matches Err(InputInjectionError::NotInitialized),
            self.is_initialized() && kind is MouseMoveAbsolute && (screen_width == 0 || screen_height == 0)
                ==> (r matches Err(InputInjectionError::InjectionFailed(m)) && m@ == "Could not determine screen dimensions"@),
            self.is_initialized() && !(kind is MouseMoveAbsolute && (screen_width == 0 || screen_height == 0))
                ==> (r matches Ok(v) && v@ == send_input_records(kind, screen_width, screen_height)),
    {
        if !self.initialized {
            return Err(InputInjectionError::NotInitialized);
        }
        let mut out: Vec<SendInputRecord> = Vec::new();
        match kind {
            InputEventKind::KeyDown { scan_code, .. } => {
                out.push(send_keyboard_input(scan_code, false));
            },
            InputEventKind::KeyUp { scan_code, .. } => {
                out.push(send_keyboard_input(scan_code, true));
            },
            InputEventKind::MouseMoveRelative { dx, dy } => {
                out.push(SendInputRecord::Mouse { dx, dy, mouse_data: 0, flags: MOUSEEVENTF_MOVE });
            },
            InputEventKind::MouseMoveAbsolute { x, y } => {
                if screen_width == 0 || screen_height == 0 {
                    return Err(InputInjectionError::InjectionFailed(String::from_str("Could not determine screen dimensions")));
                }
                let nx: i32 = x * 65535;
                let ny: i32 = y * 65535;
                proof {
                    assert(nx != i32::MIN) by (nonlinear_arith)
                        requires nx == x * 65535;
                    assert(ny != i32::MIN) by (nonlinear_arith)
                        requires ny == y * 65535;
                }
                let norm_x = div_toward_zero(nx, screen_width);
                let norm_y = div_toward_zero(ny, screen_height);
                out.push(SendInputRecord::Mouse { dx: norm_x, dy: norm_y, mouse_data: 0, flags: MOUSEEVENTF_MOVE | MOUSEEVENTF_ABSOLUTE });
            },
            InputEventKind::MouseButtonDown { button } => {
                let (flags, data) = mouse_button_flags(&button, true);
                out.push(SendInputRecord::Mouse { dx: 0, dy: 0, mouse_data: data, flags });
            },
            InputEventKind::MouseButtonUp { button } => {
                let (flags, data) = mouse_button_flags(&button, false);
                out.push(SendInputRecord::Mouse { dx: 0, dy: 0, mouse_data: data, flags });
            },
            InputEventKind::MouseScroll { dx, dy } => {
                if dy != 0 {
                    out.push(SendInputRecord::Mouse { dx: 0, dy: 0, mouse_data: i32_bits(dy), flags: MOUSEEVENTF_WHEEL });
                }
                if dx != 0 {
                    out.push(SendInputRecord::Mouse { dx: 0, dy: 0, mouse_data: i32_bits(dx), flags: MOUSEEVENTF_HWHEEL });
                }
            },
        }
        proof {
            assert(out@ =~= send_input_records(kind, screen_width, screen_height));
        }
        Ok(out)
    }
}

impl Default for WindowsInputInjector {
    fn default() -> (w: Self)
        ensures
            !w.is_initialized(),
    {
        Self::new()
    }
}

} // verus!
