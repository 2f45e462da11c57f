use funnymic::key::{Key, KeySet};
use funnymic::keyparse::parse_combo;
use funnymic::listener::{HotkeyListener, KeyEvent, ListenerAction};

#[test]
fn hotkey_activates_when_all_keys_held() {
    let target = parse_combo("Ctrl+Shift+A", false).unwrap();
    let mut l = HotkeyListener::new();
    assert_eq!(l.handle_event(KeyEvent::Press(Key::ControlRight), &target), ListenerAction::Nothing);
    assert_eq!(l.handle_event(KeyEvent::Press(Key::ShiftLeft), &target), ListenerAction::Nothing);
    assert_eq!(l.handle_event(KeyEvent::Press(Key::KeyA), &target), ListenerAction::Activate);
    assert!(l.is_active());
    // other events change nothing
    assert_eq!(l.handle_event(KeyEvent::Other, &target), ListenerAction::Nothing);
    assert!(l.is_active());
    // a repeated press keeps the hotkey active without a second signal
    assert_eq!(l.handle_event(KeyEvent::Press(Key::KeyA), &target), ListenerAction::Nothing);
    assert_eq!(l.handle_event(KeyEvent::Release(Key::ShiftRight), &target), ListenerAction::Deactivate);
    assert!(!l.is_active());
    assert_eq!(l.handle_event(KeyEvent::Release(Key::KeyA), &target), ListenerAction::Nothing);
}

#[test]
fn extra_key_deactivates() {
    let target = parse_combo("Alt+F4", false).unwrap();
    let mut l = HotkeyListener::new();
    l.handle_event(KeyEvent::Press(Key::Alt), &target);
    assert_eq!(l.handle_event(KeyEvent::Press(Key::F4), &target), ListenerAction::Activate);
    assert_eq!(l.handle_event(KeyEvent::Press(Key::KeyQ), &target), ListenerAction::Deactivate);
    assert_eq!(l.handle_event(KeyEvent::Release(Key::KeyQ), &target), ListenerAction::Activate);
}

#[test]
fn release_undoes_press() {
    let target = parse_combo("F4", false).unwrap();
    let mut l = HotkeyListener::new();
    assert_eq!(l.handle_event(KeyEvent::Press(Key::F4), &target), ListenerAction::Activate);
    assert_eq!(l.handle_event(KeyEvent::Release(Key::F4), &target), ListenerAction::Deactivate);
    // back to nothing held: pressing again activates again
    assert_eq!(l.handle_event(KeyEvent::Press(Key::F4), &target), ListenerAction::Activate);
}

#[test]
fn empty_hotkey_matches_nothing_held_after_a_key_event() {
    let target = KeySet::new();
    let mut l = HotkeyListener::new();
    assert!(!l.is_active());
    assert_eq!(l.handle_event(KeyEvent::Other, &target), ListenerAction::Nothing);
    assert_eq!(l.handle_event(KeyEvent::Release(Key::KeyB), &target), ListenerAction::Activate);
    assert_eq!(l.handle_event(KeyEvent::Press(Key::KeyB), &target), ListenerAction::Deactivate);
}

fn signals(target: &KeySet, events: &[KeyEvent]) -> Vec<ListenerAction> {
    let mut l = HotkeyListener::new();
    events
        .iter()
        .map(|e| l.handle_event(*e, target))
        .filter(|a| *a != ListenerAction::Nothing)
        .collect()
}

#[test]
fn noise_and_sides_do_not_change_signals() {
    let target = parse_combo("Ctrl+A", false).unwrap();
    let plain = [
        KeyEvent::Press(Key::ControlLeft),
        KeyEvent::Press(Key::KeyA),
        KeyEvent::Release(Key::KeyA),
        KeyEvent::Release(Key::ControlLeft),
    ];
    let noisy = [
        KeyEvent::Other,
        KeyEvent::Press(Key::ControlRight),
        KeyEvent::Press(Key::ControlLeft),
        KeyEvent::Other,
        KeyEvent::Press(Key::KeyA),
        KeyEvent::Press(Key::KeyA),
        KeyEvent::Release(Key::KeyA),
        KeyEvent::Other,
        KeyEvent::Release(Key::ControlRight),
    ];
    let expected = vec![ListenerAction::Activate, ListenerAction::Deactivate];
    assert_eq!(signals(&target, &plain), expected);
    assert_eq!(signals(&target, &noisy), expected);
}
