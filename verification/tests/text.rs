use funnymic::text::{chars_of, is_whitespace, push_decimal, split_str, trim_str};

#[test]
fn whitespace_matches_std_for_every_char() {
    for c in (0u32..=0x10FFFF).filter_map(char::from_u32) {
        assert_eq!(is_whitespace(c), c.is_whitespace(), "char {:?}", c);
    }
}

#[test]
fn trim_matches_std() {
    for s in ["", "  ", " a ", "\u{3000}x y\u{2029}", "abc", "\t\n a\u{a0}", "\u{200b}z"] {
        assert_eq!(trim_str(s), s.trim());
    }
}

#[test]
fn split_matches_std() {
    for s in ["", "+", "a", "a+b", "+a+", "a++b", "ctrl + shift + a"] {
        let expected: Vec<String> = s.split('+').map(|p| p.to_string()).collect();
        assert_eq!(split_str(s, '+'), expected);
    }
}

#[test]
fn decimal_digits() {
    let mut s = String::from("n=");
    push_decimal(&mut s, 0);
    assert_eq!(s, "n=0");
    let mut s = String::new();
    push_decimal(&mut s, 4294967295);
    assert_eq!(s, "4294967295");
    let mut s = String::new();
    push_decimal(&mut s, 1070);
    assert_eq!(s, "1070");
}

#[test]
fn chars_in_order() {
    assert_eq!(chars_of("añb"), vec!['a', 'ñ', 'b']);
    assert_eq!(chars_of(""), Vec::<char>::new());
}
