use funnymic::display::{detect_server, hotkey_backend, server_from_lowercase, DisplayServer, HotkeyBackend};
use funnymic::key::Key;
use funnymic::listener::KeyEvent;
use funnymic::settings::{swap_target_from_store, STORE_HOTKEY, STORE_PATH, STORE_SWAPTO};
use funnymic::sources::{source_choices, source_directory, source_label, SourceInfo, StringMap};
use funnymic::swapper::{
    bytes_equal, CallbackAction, InputSwapper, PAInputSwapper, SwapStart, SwitchOutcome, WinInputSwapper,
    CONTROLLER_KEY,
};

#[test]
fn detect_server_ignores_case() {
    assert_eq!(detect_server(Some("Wayland")), DisplayServer::Wayland);
    assert_eq!(detect_server(Some("x11")), DisplayServer::X11);
    assert_eq!(detect_server(Some("X11")), DisplayServer::X11);
    assert_eq!(detect_server(Some("tty")), DisplayServer::Unknown);
    assert_eq!(detect_server(Some("")), DisplayServer::Unknown);
    assert_eq!(detect_server(None), DisplayServer::Unknown);
    assert_eq!(server_from_lowercase(&"WAYLAND".to_string()), DisplayServer::Unknown);
}

#[test]
fn backend_choice() {
    assert_eq!(hotkey_backend(true, DisplayServer::Wayland), HotkeyBackend::KeyListener);
    assert_eq!(hotkey_backend(true, DisplayServer::X11), HotkeyBackend::ShortcutPlugin);
    assert_eq!(hotkey_backend(false, DisplayServer::Wayland), HotkeyBackend::ShortcutPlugin);
}

#[test]
fn pa_swapper_round_trip() {
    let mut s = PAInputSwapper::new();
    assert_eq!(s.swap_on_start(), SwapStart::NoSwapTarget);
    s.set_swap_to(b"funny".to_vec());
    assert_eq!(s.swap_on_start(), SwapStart::QueryDefault);
    let target = s.swap_on_default(b"builtin".to_vec());
    assert_eq!(target, b"funny".to_vec());
    s.switch_done(&target, SwitchOutcome::Switched);
    assert_eq!(s.swap_off_source(), b"builtin".to_vec());
    assert_eq!(*s.swap_to(), b"funny".to_vec());
}

#[test]
fn pa_swapper_forgets_missing_target() {
    let mut s = PAInputSwapper::new();
    s.set_swap_to(b"gone".to_vec());
    let target = s.swap_on_default(b"builtin".to_vec());
    s.switch_done(&target, SwitchOutcome::NoSuchSource);
    assert!(s.swap_to().is_empty());
    assert_eq!(s.swap_on_start(), SwapStart::NoSwapTarget);
    assert_eq!(s.swap_off_source(), b"builtin".to_vec());
}

#[test]
fn pa_swapper_keeps_target_on_other_failures() {
    let mut s = PAInputSwapper::new();
    s.set_swap_to(b"mic".to_vec());
    s.switch_done(&b"mic".to_vec(), SwitchOutcome::Failed);
    assert_eq!(*s.swap_to(), b"mic".to_vec());
    s.switch_done(&b"builtin".to_vec(), SwitchOutcome::NoSuchSource);
    assert_eq!(*s.swap_to(), b"mic".to_vec());
}

#[test]
fn win_swapper_steps() {
    let mut s = WinInputSwapper::new(String::new());
    assert_eq!(s.swap_on_start(), SwapStart::NoSwapTarget);
    assert!(!s.restore_on_drop());
    let mut s = WinInputSwapper::new("{dev-2}".to_string());
    assert_eq!(s.swap_on_start(), SwapStart::QueryDefault);
    assert_eq!(s.swap_on_default("{dev-1}".to_string()), "{dev-2}");
    assert_eq!(s.swap_off_source(), "{dev-1}");
    assert!(s.restore_on_drop());
    assert_eq!(*s.swap_to(), "{dev-2}");
}

#[test]
fn cli_swapper_follows_controller_key() {
    let mut s = InputSwapper::new(b"funny".to_vec());
    assert_eq!(CONTROLLER_KEY, Key::F4);
    assert_eq!(s.key_callback(KeyEvent::Press(Key::F5)), CallbackAction::Nothing);
    assert_eq!(s.key_callback(KeyEvent::Release(Key::F4)), CallbackAction::Nothing);
    assert_eq!(s.key_callback(KeyEvent::Press(Key::F4)), CallbackAction::SwapOn);
    assert!(s.swap_on_start());
    assert_eq!(s.swap_on_default(b"builtin".to_vec()), b"funny".to_vec());
    s.swap_on_done();
    assert!(!s.swap_on_start());
    assert_eq!(s.key_callback(KeyEvent::Press(Key::F4)), CallbackAction::Nothing);
    assert_eq!(s.key_callback(KeyEvent::Other), CallbackAction::Nothing);
    assert_eq!(s.key_callback(KeyEvent::Release(Key::F4)), CallbackAction::SwapOff);
    assert_eq!(s.swap_off_start(), Some(b"builtin".to_vec()));
    s.swap_off_done();
    assert_eq!(s.swap_off_start(), None);
}

#[test]
fn bytes_equal_compares_contents() {
    assert!(bytes_equal(&vec![1, 2], &vec![1, 2]));
    assert!(!bytes_equal(&vec![1, 2], &vec![1, 3]));
    assert!(!bytes_equal(&vec![1], &vec![1, 2]));
    assert!(bytes_equal(&vec![], &vec![]));
}

fn src(name: &str, description: Option<&str>, index: u32) -> SourceInfo {
    SourceInfo { name: name.to_string(), description: description.map(|d| d.to_string()), index }
}

#[test]
fn labels_fall_back_to_index() {
    assert_eq!(source_label(&src("a", Some("Built-in Mic"), 3)), "Built-in Mic");
    assert_eq!(source_label(&src("a", None, 42)), "??? [index 42]");
    assert_eq!(source_label(&src("a", None, 0)), "??? [index 0]");
}

#[test]
fn directory_by_name_later_wins() {
    let sources = vec![src("alsa.mic", Some("Mic"), 1), src("usb", None, 2), src("alsa.mic", Some("Mic 2"), 3)];
    let m = source_directory(&sources);
    assert_eq!(m.get(&"alsa.mic".to_string()), Some("Mic 2".to_string()));
    assert_eq!(m.get(&"usb".to_string()), Some("??? [index 2]".to_string()));
    assert_eq!(m.get(&"nope".to_string()), None);
    assert_eq!(m.into_entries().len(), 2);
}

#[test]
fn choices_keep_order_and_map_back() {
    let sources = vec![src("alsa.mic", Some("Mic"), 1), src("usb", None, 2)];
    let (labels, m) = source_choices(&sources);
    assert_eq!(labels, vec!["Mic".to_string(), "??? [index 2]".to_string()]);
    assert_eq!(m.get(&"Mic".to_string()), Some("alsa.mic".to_string()));
    assert_eq!(m.get(&"??? [index 2]".to_string()), Some("usb".to_string()));
}

#[test]
fn string_map_insert_replaces() {
    let mut m = StringMap::new();
    m.insert("k".to_string(), "1".to_string());
    m.insert("k".to_string(), "2".to_string());
    assert_eq!(m.get(&"k".to_string()), Some("2".to_string()));
    assert_eq!(m.into_entries(), vec![("k".to_string(), "2".to_string())]);
}

#[test]
fn stored_settings() {
    assert_eq!(swap_target_from_store(Some("mic".to_string())), "mic");
    assert_eq!(swap_target_from_store(None), "");
    assert_eq!(STORE_PATH, "config.json");
    assert_eq!(STORE_HOTKEY, "hotkey");
    assert_eq!(STORE_SWAPTO, "swapTo");
}

#[test]
fn setting_swap_target_keeps_state() {
    let mut s = InputSwapper::new(b"a".to_vec());
    s.swap_on_default(b"builtin".to_vec());
    s.swap_on_done();
    s.set_swap_to(b"b".to_vec());
    assert_eq!(*s.swap_to(), b"b".to_vec());
    assert!(!s.swap_on_start());
    assert_eq!(s.swap_off_start(), Some(b"builtin".to_vec()));
    let mut w = WinInputSwapper::new("x".to_string());
    w.swap_on_default("d".to_string());
    w.set_swap_to("y".to_string());
    assert_eq!(w.swap_to(), "y");
    assert_eq!(w.swap_off_source(), "d");
}
