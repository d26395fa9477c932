use s_kvm::edge::{EdgeCheckResult, EdgeDetector};
use s_kvm::events::{InputEventKind, ModifierMask, MouseButton};
use s_kvm::input::{
    is_capture_device, key_to_mouse_button, modifier_flag_for_key, modifier_flag_for_scan_code, mouse_button_flags,
    mouse_button_to_key, plan_linux_injection, send_keyboard_input, translate_evdev_event, EvdevRecord,
    InjectTarget, InputCaptureError, InputInjectionError, LinuxCaptureState, SendInputRecord, WindowsCaptureState,
    WindowsHookState, WindowsInputInjector, BTN_LEFT, EV_ABS, EV_KEY, EV_REL, KEYEVENTF_EXTENDEDKEY, KEYEVENTF_KEYUP,
    KEYEVENTF_SCANCODE, KEY_CAPSLOCK, KEY_LEFTSHIFT, MOUSEEVENTF_ABSOLUTE, MOUSEEVENTF_HWHEEL, MOUSEEVENTF_MOVE,
    MOUSEEVENTF_WHEEL, MOUSEEVENTF_XDOWN, REL_WHEEL, REL_X, WM_KEYDOWN, WM_MOUSEMOVE, WM_MOUSEWHEEL, WM_XBUTTONUP,
};
use s_kvm::types::{DisplayInfo, PeerId, ScreenEdge, ScreenLink, REFRESH_60HZ_BITS, SCALE_ONE_BITS};

#[test]
fn evdev_shift_press_sets_modifier() {
    let mut m = ModifierMask::default();
    let k = translate_evdev_event(&mut m, EV_KEY, KEY_LEFTSHIFT, 1);
    assert_eq!(m.0, ModifierMask::SHIFT);
    assert_eq!(k, Some(InputEventKind::KeyDown { scan_code: KEY_LEFTSHIFT as u32, modifiers: ModifierMask(ModifierMask::SHIFT) }));
    let k = translate_evdev_event(&mut m, EV_KEY, 30, 2);
    assert_eq!(k, Some(InputEventKind::KeyDown { scan_code: 30, modifiers: ModifierMask(ModifierMask::SHIFT) }));
    let k = translate_evdev_event(&mut m, EV_KEY, KEY_LEFTSHIFT, 0);
    assert_eq!(m.0, 0);
    assert_eq!(k, Some(InputEventKind::KeyUp { scan_code: KEY_LEFTSHIFT as u32, modifiers: ModifierMask(0) }));
}

#[test]
fn evdev_lock_key_toggles_on_press() {
    let mut m = ModifierMask::default();
    translate_evdev_event(&mut m, EV_KEY, KEY_CAPSLOCK, 1);
    assert!(m.has(ModifierMask::CAPS_LOCK));
    translate_evdev_event(&mut m, EV_KEY, KEY_CAPSLOCK, 0);
    assert!(m.has(ModifierMask::CAPS_LOCK));
    translate_evdev_event(&mut m, EV_KEY, KEY_CAPSLOCK, 1);
    assert_eq!(m.0, 0);
}

#[test]
fn evdev_buttons_and_axes() {
    let mut m = ModifierMask::default();
    assert_eq!(translate_evdev_event(&mut m, EV_KEY, BTN_LEFT, 1), Some(InputEventKind::MouseButtonDown { button: MouseButton::Left }));
    assert_eq!(translate_evdev_event(&mut m, EV_KEY, BTN_LEFT, 2), None);
    assert_eq!(translate_evdev_event(&mut m, EV_KEY, 0x115, 0), Some(InputEventKind::MouseButtonUp { button: MouseButton::Other(0x15) }));
    assert_eq!(translate_evdev_event(&mut m, EV_REL, REL_X, -4), Some(InputEventKind::MouseMoveRelative { dx: -4, dy: 0 }));
    assert_eq!(translate_evdev_event(&mut m, EV_REL, REL_WHEEL, 1), Some(InputEventKind::MouseScroll { dx: 0, dy: 1 }));
    assert_eq!(translate_evdev_event(&mut m, EV_ABS, 1, 77), Some(InputEventKind::MouseMoveAbsolute { x: 0, y: 77 }));
    assert_eq!(translate_evdev_event(&mut m, 0, 0, 0), None);
    assert_eq!(key_to_mouse_button(0x113), Some(MouseButton::Back));
    assert_eq!(modifier_flag_for_key(97), Some(ModifierMask::CTRL));
    assert_eq!(modifier_flag_for_key(30), None);
}

#[test]
fn capture_device_classification() {
    assert!(is_capture_device(true, false, true, false));
    assert!(is_capture_device(true, true, false, true));
    assert!(!is_capture_device(false, true, false, true));
    assert!(!is_capture_device(true, true, false, false));
}

#[test]
fn linux_capture_state_machine() {
    let mut s = LinuxCaptureState::new();
    assert!(matches!(s.stop(), Err(InputCaptureError::NotCapturing)));
    assert!(matches!(s.start(0), Err(InputCaptureError::DeviceOpen(ref m)) if m == "No input devices found"));
    s.start(2).unwrap();
    assert!(matches!(s.start(2), Err(InputCaptureError::AlreadyCapturing)));
    assert!(s.grab());
    assert!(s.is_grabbed() && !s.is_active());
    assert!(!s.grab());
    s.start(1).unwrap();
    assert!(s.ungrab());
    assert!(!s.is_grabbed() && !s.is_active());
}

#[test]
fn linux_injection_plans() {
    let p = plan_linux_injection(InputEventKind::KeyDown { scan_code: 30, modifiers: ModifierMask(0) }, true, false).unwrap();
    assert_eq!(p.target, InjectTarget::Keyboard);
    assert_eq!(p.events, vec![EvdevRecord { event_type: EV_KEY, code: 30, value: 1 }]);
    let p = plan_linux_injection(InputEventKind::MouseMoveRelative { dx: 3, dy: 0 }, false, true).unwrap();
    assert_eq!(p.events, vec![EvdevRecord { event_type: EV_REL, code: REL_X, value: 3 }]);
    let p = plan_linux_injection(InputEventKind::MouseScroll { dx: 2, dy: -1 }, false, true).unwrap();
    assert_eq!(p.events, vec![EvdevRecord { event_type: EV_REL, code: 8, value: -1 }, EvdevRecord { event_type: EV_REL, code: 6, value: 2 }]);
    let p = plan_linux_injection(InputEventKind::MouseMoveAbsolute { x: 1, y: 1 }, false, false).unwrap();
    assert_eq!(p.target, InjectTarget::Unsupported);
    assert!(p.events.is_empty());
    assert!(matches!(plan_linux_injection(InputEventKind::MouseButtonDown { button: MouseButton::Left }, true, false), Err(InputInjectionError::NotInitialized)));
    assert!(matches!(plan_linux_injection(InputEventKind::KeyUp { scan_code: 1, modifiers: ModifierMask(0) }, false, true), Err(InputInjectionError::NotInitialized)));
}

#[test]
fn injected_button_is_captured_back() {
    for b in [MouseButton::Left, MouseButton::Right, MouseButton::Middle, MouseButton::Back, MouseButton::Forward] {
        assert_eq!(key_to_mouse_button(mouse_button_to_key(&b)), Some(b));
    }
}

#[test]
fn windows_keyboard_hook() {
    let mut h = WindowsHookState::new();
    let d = h.keyboard_hook(0, WM_KEYDOWN, 0x1D, 0x01, false);
    assert_eq!(d.event, Some(InputEventKind::KeyDown { scan_code: 0xE01D, modifiers: ModifierMask(ModifierMask::CTRL) }));
    assert!(!d.swallow);
    let d = h.keyboard_hook(0, 0x0101, 0x1D, 0x81, true);
    assert_eq!(d.event, Some(InputEventKind::KeyUp { scan_code: 0xE01D, modifiers: ModifierMask(0) }));
    assert!(d.swallow);
    let d = h.keyboard_hook(-1, WM_KEYDOWN, 0x1E, 0, true);
    assert!(d.event.is_none() && !d.swallow);
    assert_eq!(modifier_flag_for_scan_code(0x38, true), Some(ModifierMask::ALT));
}

#[test]
fn windows_mouse_hook() {
    let mut h = WindowsHookState::new();
    assert!(h.mouse_hook(0, WM_MOUSEMOVE, 100, 100, 0, false).event.is_none());
    assert_eq!(h.mouse_hook(0, WM_MOUSEMOVE, 103, 98, 0, false).event, Some(InputEventKind::MouseMoveRelative { dx: 3, dy: -2 }));
    assert_eq!(h.mouse_hook(0, WM_MOUSEWHEEL, 0, 0, 0xFF88_0000, false).event, Some(InputEventKind::MouseScroll { dx: 0, dy: -120 }));
    assert_eq!(h.mouse_hook(0, WM_XBUTTONUP, 0, 0, 0x0001_0000, false).event, Some(InputEventKind::MouseButtonUp { button: MouseButton::Back }));
    assert!(h.mouse_hook(0, 0x0201, 0, 0, 0, true).swallow);
}

#[test]
fn windows_capture_state() {
    let mut s = WindowsCaptureState::new();
    assert!(matches!(s.stop(), Err(InputCaptureError::NotCapturing)));
    let h = s.start().unwrap();
    assert_eq!(h.modifiers().0, 0);
    assert!(matches!(s.start(), Err(InputCaptureError::AlreadyCapturing)));
    s.grab();
    assert!(s.is_grabbed() && s.is_active());
    s.ungrab();
    s.stop().unwrap();
    assert!(!s.is_active());
}

#[test]
fn windows_injection_records() {
    assert_eq!(send_keyboard_input(0xE01D, true), SendInputRecord::Keyboard { scan: 0x1D, flags: KEYEVENTF_SCANCODE | KEYEVENTF_EXTENDEDKEY | KEYEVENTF_KEYUP });
    assert_eq!(mouse_button_flags(&MouseButton::Forward, true), (MOUSEEVENTF_XDOWN, 2));
    let mut w = WindowsInputInjector::default();
    assert!(matches!(w.inject(InputEventKind::MouseMoveRelative { dx: 1, dy: 1 }, 0, 0), Err(InputInjectionError::NotInitialized)));
    w.init().unwrap();
    let r = w.inject(InputEventKind::MouseMoveAbsolute { x: 960, y: 540 }, 1920, 1080).unwrap();
    assert_eq!(r, vec![SendInputRecord::Mouse { dx: 32767, dy: 32767, mouse_data: 0, flags: MOUSEEVENTF_MOVE | MOUSEEVENTF_ABSOLUTE }]);
    let r = w.inject(InputEventKind::MouseMoveAbsolute { x: -10, y: 0 }, 1920, 1080).unwrap();
    assert_eq!(r, vec![SendInputRecord::Mouse { dx: -341, dy: 0, mouse_data: 0, flags: MOUSEEVENTF_MOVE | MOUSEEVENTF_ABSOLUTE }]);
    assert!(matches!(w.inject(InputEventKind::MouseMoveAbsolute { x: 1, y: 1 }, 0, 1080), Err(InputInjectionError::InjectionFailed(ref m)) if m == "Could not determine screen dimensions"));
    let r = w.inject(InputEventKind::MouseScroll { dx: -120, dy: 120 }, 0, 0).unwrap();
    assert_eq!(r, vec![
        SendInputRecord::Mouse { dx: 0, dy: 0, mouse_data: 120, flags: MOUSEEVENTF_WHEEL },
        SendInputRecord::Mouse { dx: 0, dy: 0, mouse_data: (-120i32) as u32, flags: MOUSEEVENTF_HWHEEL },
    ]);
    w.shutdown().unwrap();
    assert!(!w.initialized());
}

fn display(id: u32, x: i32, y: i32, w: u32, h: u32) -> DisplayInfo {
    DisplayInfo { id, name: format!("d{}", id), x, y, width: w, height: h, refresh_rate_bits: REFRESH_60HZ_BITS, scale_factor_bits: SCALE_ONE_BITS, is_primary: id == 0 }
}

#[test]
fn edge_detection() {
    let link = ScreenLink { source_display: 0, source_edge: ScreenEdge::Right, target_peer: PeerId(9), target_display: 1, offset: 0 };
    let det = EdgeDetector::new(vec![display(0, 0, 0, 1920, 1080), display(1, 1920, 0, 1280, 720)], vec![link], 2);
    assert_eq!(det.check(0, 900, 500), EdgeCheckResult::WithinBounds);
    assert_eq!(det.check(5, 0, 0), EdgeCheckResult::WithinBounds);
    assert_eq!(det.check(0, 1, 500), EdgeCheckResult::UnlinkedEdge(ScreenEdge::Left));
    assert_eq!(det.check(0, 900, 1079), EdgeCheckResult::UnlinkedEdge(ScreenEdge::Bottom));
    match det.check(0, 1919, 540) {
        EdgeCheckResult::Transition { link: l, mapping } => {
            assert_eq!(l, link);
            assert_eq!(mapping.edge, ScreenEdge::Right);
            assert_eq!(mapping.fixed, 1920);
            assert_eq!(mapping.offset, 540);
            assert_eq!(mapping.source_length, 1080);
            assert_eq!(mapping.target_origin, 0);
            assert_eq!(mapping.target_length, 720);
        }
        other => panic!("unexpected {:?}", other),
    }
}

#[test]
fn edge_transition_to_unknown_target_maps_onto_source() {
    let link = ScreenLink { source_display: 0, source_edge: ScreenEdge::Left, target_peer: PeerId(9), target_display: 7, offset: 0 };
    let det = EdgeDetector::new(vec![display(0, 100, 50, 800, 600)], vec![link], 0);
    match det.check(0, 100, 80) {
        EdgeCheckResult::Transition { mapping, .. } => {
            assert_eq!(mapping.fixed, 100 + 800 - 1);
            assert_eq!(mapping.offset, 30);
            assert_eq!(mapping.target_origin, 50);
        }
        other => panic!("unexpected {:?}", other),
    }
}
