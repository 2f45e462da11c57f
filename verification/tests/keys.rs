use funnymic::key::{side_neutral, Key, KeySet};
use funnymic::keyparse::{combo_key_from_name, key_from_name, parse_combo, parse_key, KeyParseError};

fn set_of(keys: &[Key]) -> KeySet {
    let mut s = KeySet::new();
    for k in keys {
        s.insert(*k);
    }
    s
}

#[test]
fn side_neutral_maps_right_modifiers_to_left() {
    assert_eq!(side_neutral(Key::ControlRight), Key::ControlLeft);
    assert_eq!(side_neutral(Key::MetaRight), Key::MetaLeft);
    assert_eq!(side_neutral(Key::ShiftRight), Key::ShiftLeft);
    assert_eq!(side_neutral(Key::KeyA), Key::KeyA);
    assert_eq!(side_neutral(Key::Unknown(7)), Key::Unknown(7));
}

#[test]
fn key_set_insert_remove() {
    let mut s = KeySet::new();
    s.insert(Key::KeyA);
    s.insert(Key::KeyA);
    s.insert(Key::F4);
    assert_eq!(s.len(), 2);
    assert!(s.contains(Key::KeyA));
    s.remove(Key::KeyA);
    assert!(!s.contains(Key::KeyA));
    assert_eq!(s.len(), 1);
    s.remove(Key::KeyZ);
    assert_eq!(s.len(), 1);
}

#[test]
fn key_set_same_keys_ignores_order() {
    let a = set_of(&[Key::KeyA, Key::ControlLeft]);
    let b = set_of(&[Key::ControlLeft, Key::KeyA]);
    let c = set_of(&[Key::ControlLeft]);
    assert!(a.same_keys(&b));
    assert!(!a.same_keys(&c));
    assert!(!c.same_keys(&a));
}

#[test]
fn parse_key_names_and_symbols() {
    assert_eq!(parse_key("a"), Ok(Key::KeyA));
    assert_eq!(parse_key("KeyZ"), Ok(Key::KeyZ));
    assert_eq!(parse_key("`"), Ok(Key::BackQuote));
    assert_eq!(parse_key("\\"), Ok(Key::BackSlash));
    assert_eq!(parse_key("digit5"), Ok(Key::Num5));
    assert_eq!(parse_key("0"), Ok(Key::Num0));
    assert_eq!(parse_key("Enter"), Ok(Key::Return));
    assert_eq!(parse_key("esc"), Ok(Key::Escape));
    assert_eq!(parse_key("F4"), Ok(Key::F4));
    assert_eq!(parse_key("f12"), Ok(Key::F12));
    assert_eq!(parse_key("NumpadAdd"), Ok(Key::KpPlus));
    assert_eq!(parse_key("numplus"), Ok(Key::KpPlus));
    assert_eq!(parse_key("NumDecimal"), Ok(Key::KpDelete));
    assert_eq!(parse_key("ArrowUp"), Ok(Key::UpArrow));
    assert_eq!(parse_key("PauseBreak"), Ok(Key::Pause));
    assert_eq!(parse_key("."), Ok(Key::Dot));
}

#[test]
fn parse_key_unknown_keeps_name_as_written() {
    assert_eq!(parse_key("Hyper"), Err(KeyParseError::UnknownKey("Hyper".to_string())));
    assert_eq!(parse_key(""), Err(KeyParseError::UnknownKey(String::new())));
    // modifier names are not keys on their own
    assert_eq!(parse_key("Ctrl"), Err(KeyParseError::UnknownKey("Ctrl".to_string())));
    // F13 and media keys are not supported
    assert_eq!(parse_key("F13"), Err(KeyParseError::UnknownKey("F13".to_string())));
    assert_eq!(parse_key("NumpadEqual"), Err(KeyParseError::UnknownKey("NumpadEqual".to_string())));
}

#[test]
fn parse_key_uses_unicode_uppercase() {
    // U+017F LATIN SMALL LETTER LONG S upper-cases to 'S'
    assert_eq!(parse_key("\u{17f}pace"), Ok(Key::Space));
}

#[test]
fn key_from_name_needs_upper_case() {
    assert_eq!(key_from_name(&"SPACE".to_string()), Some(Key::Space));
    assert_eq!(key_from_name(&"space".to_string()), None);
    assert_eq!(combo_key_from_name(&"CMDORCTRL".to_string(), false), Some(Key::ControlLeft));
    assert_eq!(combo_key_from_name(&"SUPER".to_string(), false), Some(Key::MetaLeft));
    assert_eq!(combo_key_from_name(&"OPTION".to_string(), false), Some(Key::Alt));
    assert_eq!(combo_key_from_name(&"TAB".to_string(), false), Some(Key::Tab));
    assert_eq!(combo_key_from_name(&"HYPER".to_string(), false), None);
}

#[test]
fn parse_combo_modifiers_and_key() {
    let keys = parse_combo("Ctrl+Shift+A", false).unwrap();
    assert!(keys.same_keys(&set_of(&[Key::ControlLeft, Key::ShiftLeft, Key::KeyA])));
    let keys = parse_combo(" control +  alt+ f4 ", false).unwrap();
    assert!(keys.same_keys(&set_of(&[Key::ControlLeft, Key::Alt, Key::F4])));
    let keys = parse_combo("CommandOrControl+Super+X", false).unwrap();
    assert!(keys.same_keys(&set_of(&[Key::ControlLeft, Key::MetaLeft, Key::KeyX])));
}

#[test]
fn parse_combo_repeated_piece_counts_once() {
    let keys = parse_combo("ctrl+Control+a", false).unwrap();
    assert_eq!(keys.len(), 2);
    assert!(keys.same_keys(&set_of(&[Key::ControlLeft, Key::KeyA])));
}

#[test]
fn parse_combo_single_key() {
    let keys = parse_combo("F4", false).unwrap();
    assert!(keys.same_keys(&set_of(&[Key::F4])));
    // a lone key name is not trimmed
    assert_eq!(
        parse_combo(" F4", false).unwrap_err(),
        KeyParseError::UnknownKey(" F4".to_string())
    );
    // a lone modifier is not accepted
    assert_eq!(
        parse_combo("Shift", false).unwrap_err(),
        KeyParseError::UnknownKey("Shift".to_string())
    );
}

#[test]
fn parse_combo_empty_piece() {
    assert_eq!(
        parse_combo("Ctrl++A", false).unwrap_err(),
        KeyParseError::EmptyToken("Ctrl++A".to_string())
    );
    assert_eq!(
        parse_combo("Ctrl+ +A", false).unwrap_err(),
        KeyParseError::EmptyToken("Ctrl+ +A".to_string())
    );
    assert_eq!(parse_combo("+", false).unwrap_err(), KeyParseError::EmptyToken("+".to_string()));
}

#[test]
fn parse_combo_unknown_piece_is_trimmed() {
    assert_eq!(
        parse_combo("Ctrl+ Hyper ", false).unwrap_err(),
        KeyParseError::UnknownKey("Hyper".to_string())
    );
    assert_eq!(parse_combo("", false).unwrap_err(), KeyParseError::UnknownKey(String::new()));
}

#[test]
fn parse_combo_first_bad_piece_decides() {
    assert_eq!(
        parse_combo("Foo++A", false).unwrap_err(),
        KeyParseError::UnknownKey("Foo".to_string())
    );
    assert_eq!(
        parse_combo("A++Foo", false).unwrap_err(),
        KeyParseError::EmptyToken("A++Foo".to_string())
    );
}

#[test]
fn parse_error_messages() {
    assert_eq!(
        KeyParseError::UnknownKey("Hyper".to_string()).message(),
        "could not parse key Hyper"
    );
    assert_eq!(
        KeyParseError::EmptyToken("a++b".to_string()).message(),
        "empty token found in key combo: a++b"
    );
}

#[test]
fn parse_combo_order_of_pieces_does_not_matter() {
    let a = parse_combo("Ctrl+Shift+A", false).unwrap();
    let b = parse_combo("A+Shift+Ctrl", false).unwrap();
    let c = parse_combo("shift+a+ctrl+a", false).unwrap();
    assert!(a.same_keys(&b));
    assert!(a.same_keys(&c));
    assert!(parse_combo("Foo+A", false).is_err());
    assert!(parse_combo("A+Foo", false).is_err());
}

#[test]
fn command_or_control_is_command_on_macos() {
    for name in ["CmdOrCtrl", "CommandOrControl", "CommandOrCtrl", "CmdOrControl"] {
        let combo = format!("{}+K", name);
        let elsewhere = parse_combo(&combo, false).unwrap();
        assert!(elsewhere.same_keys(&set_of(&[Key::ControlLeft, Key::KeyK])));
        let mac = parse_combo(&combo, true).unwrap();
        assert!(mac.same_keys(&set_of(&[Key::MetaLeft, Key::KeyK])));
    }
    assert_eq!(combo_key_from_name(&"CMDORCTRL".to_string(), true), Some(Key::MetaLeft));
    assert_eq!(combo_key_from_name(&"CTRL".to_string(), true), Some(Key::ControlLeft));
}
