use vstd::prelude::*;

use vstd::std_specs::cmp::PartialEqSpecImpl;

use crate::key::{spec_side_neutral, Key, KeySet};
use crate::text::{lemma_split_on_len, split_on, split_str, to_uppercase, trim, trim_str, uppercase};

verus! {

/// What a failed parse reports, as plain character sequences.
pub enum ParseFailure {
    UnknownKey(Seq<char>),
    EmptyToken(Seq<char>),
}

/// Why a key or key combination could not be parsed.
#[derive(Debug)]
pub enum KeyParseError {
    /// A name that is not a known key; holds the name as written.
    UnknownKey(String),
    /// A combination with an empty piece between two `+`; holds the whole
    /// combination.
    EmptyToken(String),
}

impl View for KeyParseError {
    type V = ParseFailure;

    open spec fn view(&self) -> ParseFailure {
        match self {
            KeyParseError::UnknownKey(s) => ParseFailure::UnknownKey(s@),
            KeyParseError::EmptyToken(s) => ParseFailure::EmptyToken(s@),
        }
    }
}

/// The human-readable text of a parse failure.
pub open spec fn failure_message(f: ParseFailure) -> Seq<char> {
    match f {
        ParseFailure::UnknownKey(s) => "could not parse key "@ + s,
        ParseFailure::EmptyToken(s) => "empty token found in key combo: "@ + s,
    }
}

impl KeyParseError {
    /// The error's message, as it is shown to the user.
    pub fn message(&self) -> (m: String)
        ensures
            m@ == failure_message(self@),
    {
        match self {
            KeyParseError::UnknownKey(s) => {
                let head = String::from_str("could not parse key ");
                head.concat(s.as_str())
            },
            KeyParseError::EmptyToken(s) => {
                let head = String::from_str("empty token found in key combo: ");
                head.concat(s.as_str())
            },
        }
    }
}

impl PartialEq for KeyParseError {
    fn eq(&self, other: &Self) -> (r: bool) {
        match (self, other) {
            (KeyParseError::UnknownKey(a), KeyParseError::UnknownKey(b)) => *a == *b,
            (KeyParseError::EmptyToken(a), KeyParseError::EmptyToken(b)) => *a == *b,
            _ => false,
        }
    }
}

impl PartialEqSpecImpl for KeyParseError {
    open spec fn obeys_eq_spec() -> bool {
        true
    }

    open spec fn eq_spec(&self, other: &Self) -> bool {
        self@ == other@
    }
}

/// Whether `name` spells exactly `lit`.
fn is_name(name: &String, lit: &str) -> (b: bool)
    ensures
        b == (name@ == lit@),
{
    let l = String::from_str(lit);
    *name == l
}

/// Names of the digit-row and bracket keys, in upper case.
pub open spec fn symbol_row_key(name: Seq<char>) -> Option<Key> {
    if name == "BACKQUOTE"@ || name == "`"@ {
        Some(Key::BackQuote)
    } else if name == "BACKSLASH"@ || name == "\\"@ {
        Some(Key::BackSlash)
    } else if name == "BRACKETLEFT"@ || name == "["@ {
        Some(Key::LeftBracket)
    } else if name == "BRACKETRIGHT"@ || name == "]"@ {
        Some(Key::RightBracket)
    } else if name == "PAUSE"@ || name == "PAUSEBREAK"@ {
        Some(Key::Pause)
    } else if name == "COMMA"@ || name == ","@ {
        Some(Key::Comma)
    } else if name == "DIGIT0"@ || name == "0"@ {
        Some(Key::Num0)
    } else if name == "DIGIT1"@ || name == "1"@ {
        Some(Key::Num1)
    } else if name == "DIGIT2"@ || name == "2"@ {
        Some(Key::Num2)
    } else if name == "DIGIT3"@ || name == "3"@ {
        Some(Key::Num3)
    } else if name == "DIGIT4"@ || name == "4"@ {
        Some(Key::Num4)
    } else if name == "DIGIT5"@ || name == "5"@ {
        Some(Key::Num5)
    } else if name == "DIGIT6"@ || name == "6"@ {
        Some(Key::Num6)
    } else if name == "DIGIT7"@ || name == "7"@ {
        Some(Key::Num7)
    } else if name == "DIGIT8"@ || name == "8"@ {
        Some(Key::Num8)
    } else if name == "DIGIT9"@ || name == "9"@ {
        Some(Key::Num9)
    } else if name == "EQUAL"@ || name == "="@ {
        Some(Key::Equal)
    } else {
        None
    }
}

/// Looks `name` up among the digit-row and bracket keys.
fn symbol_row_key_exec(name: &String) -> (r: Option<Key>)
    ensures
        r == symbol_row_key(name@),
{
    if is_name(name, "BACKQUOTE") || is_name(name, "`") {
        Some(Key::BackQuote)
    } else if is_name(name, "BACKSLASH") || is_name(name, "\\") {
        Some(Key::BackSlash)
    } else if is_name(name, "BRACKETLEFT") || is_name(name, "[") {
        Some(Key::LeftBracket)
    } else if is_name(name, "BRACKETRIGHT") || is_name(name, "]") {
        Some(Key::RightBracket)
    } else if is_name(name, "PAUSE") || is_name(name, "PAUSEBREAK") {
        Some(Key::Pause)
    } else if is_name(name, "COMMA") || is_name(name, ",") {
        Some(Key::Comma)
    } else if is_name(name, "DIGIT0") || is_name(name, "0") {
        Some(Key::Num0)
    } else if is_name(name, "DIGIT1") || is_name(name, "1") {
        Some(Key::Num1)
    } else if is_name(name, "DIGIT2") || is_name(name, "2") {
        Some(Key::Num2)
    } else if is_name(name, "DIGIT3") || is_name(name, "3") {
        Some(Key::Num3)
    } else if is_name(name, "DIGIT4") || is_name(name, "4") {
        Some(Key::Num4)
    } else if is_name(name, "DIGIT5") || is_name(name, "5") {
        Some(Key::Num5)
    } else if is_name(name, "DIGIT6") || is_name(name, "6") {
        Some(Key::Num6)
    } else if is_name(name, "DIGIT7") || is_name(name, "7") {
        Some(Key::Num7)
    } else if is_name(name, "DIGIT8") || is_name(name, "8") {
        Some(Key::Num8)
    } else if is_name(name, "DIGIT9") || is_name(name, "9") {
        Some(Key::Num9)
    } else if is_name(name, "EQUAL") || is_name(name, "=") {
        Some(Key::Equal)
    } else {
        None
    }
}

/// Names of the letter keys, in upper case.
pub open spec fn letter_key(name: Seq<char>) -> Option<Key> {
    if name == "KEYA"@ || name == "A"@ {
        Some(Key::KeyA)
    } else if name == "KEYB"@ || name == "B"@ {
        Some(Key::KeyB)
    } else if name == "KEYC"@ || name == "C"@ {
        Some(Key::KeyC)
    } else if name == "KEYD"@ || name == "D"@ {
        Some(Key::KeyD)
    } else if name == "KEYE"@ || name == "E"@ {
        Some(Key::KeyE)
    } else if name == "KEYF"@ || name == "F"@ {
        Some(Key::KeyF)
    } else if name == "KEYG"@ || name == "G"@ {
        Some(Key::KeyG)
    } else if name == "KEYH"@ || name == "H"@ {
        Some(Key::KeyH)
    } else if name == "KEYI"@ || name == "I"@ {
        Some(Key::KeyI)
    } else if name == "KEYJ"@ || name == "J"@ {
        Some(Key::KeyJ)
    } else if name == "KEYK"@ || name == "K"@ {
        Some(Key::KeyK)
    } else if name == "KEYL"@ || name == "L"@ {
        Some(Key::KeyL)
    } else if name == "KEYM"@ || name == "M"@ {
        Some(Key::KeyM)
    } else if name == "KEYN"@ || name == "N"@ {
        Some(Key::KeyN)
    } else if name == "KEYO"@ || name == "O"@ {
        Some(Key::KeyO)
    } else if name == "KEYP"@ || name == "P"@ {
        Some(Key::KeyP)
    } else if name == "KEYQ"@ || name == "Q"@ {
        Some(Key::KeyQ)
    } else if name == "KEYR"@ || name == "R"@ {
        Some(Key::KeyR)
    } else if name == "KEYS"@ || name == "S"@ {
        Some(Key::KeyS)
    } else if name == "KEYT"@ || name == "T"@ {
        Some(Key::KeyT)
    } else if name == "KEYU"@ || name == "U"@ {
        Some(Key::KeyU)
    } else if name == "KEYV"@ || name == "V"@ {
        Some(Key::KeyV)
    } else if name == "KEYW"@ || name == "W"@ {
        Some(Key::KeyW)
    } else if name == "KEYX"@ || name == "X"@ {
        Some(Key::KeyX)
    } else if name == "KEYY"@ || name == "Y"@ {
        Some(Key::KeyY)
    } else if name == "KEYZ"@ || name == "Z"@ {
        Some(Key::KeyZ)
    } else {
        None
    }
}

/// Looks `name` up among the letter keys.
fn letter_key_exec(name: &String) -> (r: Option<Key>)
    ensures
        r == letter_key(name@),
{
    if is_name(name, "KEYA") || is_name(name, "A") {
        Some(Key::KeyA)
    } else if is_name(name, "KEYB") || is_name(name, "B") {
        Some(Key::KeyB)
    } else if is_name(name, "KEYC") || is_name(name, "C") {
        Some(Key::KeyC)
    } else if is_name(name, "KEYD") || is_name(name, "D") {
        Some(Key::KeyD)
    } else if is_name(name, "KEYE") || is_name(name, "E") {
        Some(Key::KeyE)
    } else if is_name(name, "KEYF") || is_name(name, "F") {
        Some(Key::KeyF)
    } else if is_name(name, "KEYG") || is_name(name, "G") {
        Some(Key::KeyG)
    } else if is_name(name, "KEYH") || is_name(name, "H") {
        Some(Key::KeyH)
    } else if is_name(name, "KEYI") || is_name(name, "I") {
        Some(Key::KeyI)
    } else if is_name(name, "KEYJ") || is_name(name, "J") {
        Some(Key::KeyJ)
    } else if is_name(name, "KEYK") || is_name(name, "K") {
        Some(Key::KeyK)
    } else if is_name(name, "KEYL") || is_name(name, "L") {
        Some(Key::KeyL)
    } else if is_name(name, "KEYM") || is_name(name, "M") {
        Some(Key::KeyM)
    } else if is_name(name, "KEYN") || is_name(name, "N") {
        Some(Key::KeyN)
    } else if is_name(name, "KEYO") || is_name(name, "O") {
        Some(Key::KeyO)
    } else if is_name(name, "KEYP") || is_name(name, "P") {
        Some(Key::KeyP)
    } else if is_name(name, "KEYQ") || is_name(name, "Q") {
        Some(Key::KeyQ)
    } else if is_name(name, "KEYR") || is_name(name, "R") {
        Some(Key::KeyR)
    } else if is_name(name, "KEYS") || is_name(name, "S") {
        Some(Key::KeyS)
    } else if is_name(name, "KEYT") || is_name(name, "T") {
        Some(Key::KeyT)
    } else if is_name(name, "KEYU") || is_name(name, "U") {
        Some(Key::KeyU)
    } else if is_name(name, "KEYV") || is_name(name, "V") {
        Some(Key::KeyV)
    } else if is_name(name, "KEYW") || is_name(name, "W") {
        Some(Key::KeyW)
    } else if is_name(name, "KEYX") || is_name(name, "X") {
        Some(Key::KeyX)
    } else if is_name(name, "KEYY") || is_name(name, "Y") {
        Some(Key::KeyY)
    } else if is_name(name, "KEYZ") || is_name(name, "Z") {
        Some(Key::KeyZ)
    } else {
        None
    }
}

/// Names of the punctuation and editing keys, in upper case.
pub open spec fn editing_key(name: Seq<char>) -> Option<Key> {
    if name == "MINUS"@ || name == "-"@ {
        Some(Key::Minus)
    } else if name == "PERIOD"@ || name == "."@ {
        Some(Key::Dot)
    } else if name == "QUOTE"@ || name == "'"@ {
        Some(Key::Quote)
    } else if name == "SEMICOLON"@ || name == ";"@ {
        Some(Key::SemiColon)
    } else if name == "SLASH"@ || name == "/"@ {
        Some(Key::Slash)
    } else if name == "BACKSPACE"@ {
        Some(Key::Backspace)
    } else if name == "CAPSLOCK"@ {
        Some(Key::CapsLock)
    } else if name == "ENTER"@ {
        Some(Key::Return)
    } else if name == "SPACE"@ {
        Some(Key::Space)
    } else if name == "TAB"@ {
        Some(Key::Tab)
    } else if name == "DELETE"@ {
        Some(Key::Delete)
    } else if name == "END"@ {
        Some(Key::End)
    } else if name == "HOME"@ {
        Some(Key::Home)
    } else if name == "INSERT"@ {
        Some(Key::Insert)
    } else {
        None
    }
}

/// Looks `name` up among the punctuation and editing keys.
fn editing_key_exec(name: &String) -> (r: Option<Key>)
    ensures
        r == editing_key(name@),
{
    if is_name(name, "MINUS") || is_name(name, "-") {
        Some(Key::Minus)
    } else if is_name(name, "PERIOD") || is_name(name, ".") {
        Some(Key::Dot)
    } else if is_name(name, "QUOTE") || is_name(name, "'") {
        Some(Key::Quote)
    } else if is_name(name, "SEMICOLON") || is_name(name, ";") {
        Some(Key::SemiColon)
    } else if is_name(name, "SLASH") || is_name(name, "/") {
        Some(Key::Slash)
    } else if is_name(name, "BACKSPACE") {
        Some(Key::Backspace)
    } else if is_name(name, "CAPSLOCK") {
        Some(Key::CapsLock)
    } else if is_name(name, "ENTER") {
        Some(Key::Return)
    } else if is_name(name, "SPACE") {
        Some(Key::Space)
    } else if is_name(name, "TAB") {
        Some(Key::Tab)
    } else if is_name(name, "DELETE") {
        Some(Key::Delete)
    } else if is_name(name, "END") {
        Some(Key::End)
    } else if is_name(name, "HOME") {
        Some(Key::Home)
    } else if is_name(name, "INSERT") {
        Some(Key::Insert)
    } else {
        None
    }
}

/// Names of the navigation keys, in upper case.
pub open spec fn navigation_key(name: Seq<char>) -> Option<Key> {
    if name == "PAGEDOWN"@ {
        Some(Key::PageDown)
    } else if name == "PAGEUP"@ {
        Some(Key::PageUp)
    } else if name == "PRINTSCREEN"@ {
        Some(Key::PrintScreen)
    } else if name == "SCROLLLOCK"@ {
        Some(Key::ScrollLock)
    } else if name == "ARROWDOWN"@ || name == "DOWN"@ {
        Some(Key::DownArrow)
    } else if name == "ARROWLEFT"@ || name == "LEFT"@ {
        Some(Key::LeftArrow)
    } else if name == "ARROWRIGHT"@ || name == "RIGHT"@ {
        Some(Key::RightArrow)
    } else if name == "ARROWUP"@ || name == "UP"@ {
        Some(Key::UpArrow)
    } else {
        None
    }
}

/// Looks `name` up among the navigation keys.
fn navigation_key_exec(name: &String) -> (r: Option<Key>)
    ensures
        r == navigation_key(name@),
{
    if is_name(name, "PAGEDOWN") {
        Some(Key::PageDown)
    } else if is_name(name, "PAGEUP") {
        Some(Key::PageUp)
    } else if is_name(name, "PRINTSCREEN") {
        Some(Key::PrintScreen)
    } else if is_name(name, "SCROLLLOCK") {
        Some(Key::ScrollLock)
    } else if is_name(name, "ARROWDOWN") || is_name(name, "DOWN") {
        Some(Key::DownArrow)
    } else if is_name(name, "ARROWLEFT") || is_name(name, "LEFT") {
        Some(Key::LeftArrow)
    } else if is_name(name, "ARROWRIGHT") || is_name(name, "RIGHT") {
        Some(Key::RightArrow)
    } else if is_name(name, "ARROWUP") || is_name(name, "UP") {
        Some(Key::UpArrow)
    } else {
        None
    }
}

/// Names of the numeric keypad keys, in upper case.
pub open spec fn keypad_key(name: Seq<char>) -> Option<Key> {
    if name == "NUMLOCK"@ {
        Some(Key::NumLock)
    } else if name == "NUMPAD0"@ || name == "NUM0"@ {
        Some(Key::Kp0)
    } else if name == "NUMPAD1"@ || name == "NUM1"@ {
        Some(Key::Kp1)
    } else if name == "NUMPAD2"@ || name == "NUM2"@ {
        Some(Key::Kp2)
    } else if name == "NUMPAD3"@ || name == "NUM3"@ {
        Some(Key::Kp3)
    } else if name == "NUMPAD4"@ || name == "NUM4"@ {
        Some(Key::Kp4)
    } else if name == "NUMPAD5"@ || name == "NUM5"@ {
        Some(Key::Kp5)
    } else if name == "NUMPAD6"@ || name == "NUM6"@ {
        Some(Key::Kp6)
    } else if name == "NUMPAD7"@ || name == "NUM7"@ {
        Some(Key::Kp7)
    } else if name == "NUMPAD8"@ || name == "NUM8"@ {
        Some(Key::Kp8)
    } else if name == "NUMPAD9"@ || name == "NUM9"@ {
        Some(Key::Kp9)
    } else if name == "NUMPADADD"@ || name == "NUMADD"@ || name == "NUMPADPLUS"@ || name == "NUMPLUS"@ {
        Some(Key::KpPlus)
    } else if name == "NUMPADDECIMAL"@ || name == "NUMDECIMAL"@ {
        Some(Key::KpDelete)
    } else if name == "NUMPADDIVIDE"@ || name == "NUMDIVIDE"@ {
        Some(Key::KpDivide)
    } else if name == "NUMPADENTER"@ || name == "NUMENTER"@ {
        Some(Key::KpReturn)
    } else if name == "NUMPADMULTIPLY"@ || name == "NUMMULTIPLY"@ {
        Some(Key::KpMultiply)
    } else if name == "NUMPADSUBTRACT"@ || name == "NUMSUBTRACT"@ {
        Some(Key::KpMinus)
    } else {
        None
    }
}

/// Looks `name` up among the numeric keypad keys.
fn keypad_key_exec(name: &String) -> (r: Option<Key>)
    ensures
        r == keypad_key(name@),
{
    if is_name(name, "NUMLOCK") {
        Some(Key::NumLock)
    } else if is_name(name, "NUMPAD0") || is_name(name, "NUM0") {
        Some(Key::Kp0)
    } else if is_name(name, "NUMPAD1") || is_name(name, "NUM1") {
        Some(Key::Kp1)
    } else if is_name(name, "NUMPAD2") || is_name(name, "NUM2") {
        Some(Key::Kp2)
    } else if is_name(name, "NUMPAD3") || is_name(name, "NUM3") {
        Some(Key::Kp3)
    } else if is_name(name, "NUMPAD4") || is_name(name, "NUM4") {
        Some(Key::Kp4)
    } else if is_name(name, "NUMPAD5") || is_name(name, "NUM5") {
        Some(Key::Kp5)
    } else if is_name(name, "NUMPAD6") || is_name(name, "NUM6") {
        Some(Key::Kp6)
    } else if is_name(name, "NUMPAD7") || is_name(name, "NUM7") {
        Some(Key::Kp7)
    } else if is_name(name, "NUMPAD8") || is_name(name, "NUM8") {
        Some(Key::Kp8)
    } else if is_name(name, "NUMPAD9") || is_name(name, "NUM9") {
        Some(Key::Kp9)
    } else if is_name(name, "NUMPADADD") || is_name(name, "NUMADD") || is_name(name, "NUMPADPLUS") || is_name(name, "NUMPLUS") {
        Some(Key::KpPlus)
    } else if is_name(name, "NUMPADDECIMAL") || is_name(name, "NUMDECIMAL") {
        Some(Key::KpDelete)
    } else if is_name(name, "NUMPADDIVIDE") || is_name(name, "NUMDIVIDE") {
        Some(Key::KpDivide)
    } else if is_name(name, "NUMPADENTER") || is_name(name, "NUMENTER") {
        Some(Key::KpReturn)
    } else if is_name(name, "NUMPADMULTIPLY") || is_name(name, "NUMMULTIPLY") {
        Some(Key::KpMultiply)
    } else if is_name(name, "NUMPADSUBTRACT") || is_name(name, "NUMSUBTRACT") {
        Some(Key::KpMinus)
    } else {
        None
    }
}

/// Names of the escape and function keys, in upper case.
pub open spec fn function_key(name: Seq<char>) -> Option<Key> {
    if name == "ESCAPE"@ || name == "ESC"@ {
        Some(Key::Escape)
    } else if name == "F1"@ {
        Some(Key::F1)
    } else if name == "F2"@ {
        Some(Key::F2)
    } else if name == "F3"@ {
        Some(Key::F3)
    } else if name == "F4"@ {
        Some(Key::F4)
    } else if name == "F5"@ {
        Some(Key::F5)
    } else if name == "F6"@ {
        Some(Key::F6)
    } else if name == "F7"@ {
        Some(Key::F7)
    } else if name == "F8"@ {
        Some(Key::F8)
    } else if name == "F9"@ {
        Some(Key::F9)
    } else if name == "F10"@ {
        Some(Key::F10)
    } else if name == "F11"@ {
        Some(Key::F11)
    } else if name == "F12"@ {
        Some(Key::F12)
    } else {
        None
    }
}

/// Looks `name` up among the escape and function keys.
fn function_key_exec(name: &String) -> (r: Option<Key>)
    ensures
        r == function_key(name@),
{
    if is_name(name, "ESCAPE") || is_name(name, "ESC") {
        Some(Key::Escape)
    } else if is_name(name, "F1") {
        Some(Key::F1)
    } else if is_name(name, "F2") {
        Some(Key::F2)
    } else if is_name(name, "F3") {
        Some(Key::F3)
    } else if is_name(name, "F4") {
        Some(Key::F4)
    } else if is_name(name, "F5") {
        Some(Key::F5)
    } else if is_name(name, "F6") {
        Some(Key::F6)
    } else if is_name(name, "F7") {
        Some(Key::F7)
    } else if is_name(name, "F8") {
        Some(Key::F8)
    } else if is_name(name, "F9") {
        Some(Key::F9)
    } else if is_name(name, "F10") {
        Some(Key::F10)
    } else if is_name(name, "F11") {
        Some(Key::F11)
    } else if is_name(name, "F12") {
        Some(Key::F12)
    } else {
        None
    }
}
/// The key that an upper-case key name denotes, if any.
pub open spec fn key_for_name(name: Seq<char>) -> Option<Key> {
    if symbol_row_key(name) is Some {
        symbol_row_key(name)
    } else if letter_key(name) is Some {
        letter_key(name)
    } else if editing_key(name) is Some {
        editing_key(name)
    } else if navigation_key(name) is Some {
        navigation_key(name)
    } else if keypad_key(name) is Some {
        keypad_key(name)
    } else {
        function_key(name)
    }
}

/// The key that the upper-case name `name` denotes, if any.
pub fn key_from_name(name: &String) -> (r: Option<Key>)
    ensures
        r == key_for_name(name@),
{
    let r = symbol_row_key_exec(name);
    if r.is_some() {
        return r;
    }
    let r = letter_key_exec(name);
    if r.is_some() {
        return r;
    }
    let r = editing_key_exec(name);
    if r.is_some() {
        return r;
    }
    let r = navigation_key_exec(name);
    if r.is_some() {
        return r;
    }
    let r = keypad_key_exec(name);
    if r.is_some() {
        return r;
    }
    function_key_exec(name)
}

/// Parses one key name, ignoring case.
pub fn parse_key(key: &str) -> (r: Result<Key, KeyParseError>)
    ensures
        match key_for_name(uppercase(key@)) {
            Some(k) => r == Ok::<Key, KeyParseError>(k),
            None => r is Err && r->Err_0@ == ParseFailure::UnknownKey(key@),
        },
{
    let upper = to_uppercase(key);
    match key_from_name(&upper) {
        Some(k) => Ok(k),
        None => Err(KeyParseError::UnknownKey(String::from_str(key))),
    }
}

/// The modifier that an upper-case name denotes inside a combination, if any.
/// "Command or Control" is the Command (Meta) key on macOS and Control
/// elsewhere.
pub open spec fn modifier_for_name(name: Seq<char>, on_macos: bool) -> Option<Key> {
    if name == "OPTION"@ || name == "ALT"@ {
        Some(Key::Alt)
    } else if name == "CONTROL"@ || name == "CTRL"@ {
        Some(Key::ControlLeft)
    } else if name == "COMMAND"@ || name == "CMD"@ || name == "SUPER"@ {
        Some(Key::MetaLeft)
    } else if name == "SHIFT"@ {
        Some(Key::ShiftLeft)
    } else if name == "COMMANDORCONTROL"@ || name == "COMMANDORCTRL"@ || name == "CMDORCTRL"@
        || name == "CMDORCONTROL"@ {
        if on_macos {
            Some(Key::MetaLeft)
        } else {
            Some(Key::ControlLeft)
        }
    } else {
        None
    }
}

/// The key that an upper-case name denotes inside a combination: a modifier
/// name first, else an ordinary key name.
pub open spec fn combo_key_for_name(name: Seq<char>, on_macos: bool) -> Option<Key> {
    if modifier_for_name(name, on_macos) is Some {
        modifier_for_name(name, on_macos)
    } else {
        key_for_name(name)
    }
}

/// The key that the upper-case name `name` denotes inside a combination, on
/// macOS when `on_macos` holds.
pub fn combo_key_from_name(name: &String, on_macos: bool) -> (r: Option<Key>)
    ensures
        r == combo_key_for_name(name@, on_macos),
{
    if is_name(name, "OPTION") || is_name(name, "ALT") {
        Some(Key::Alt)
    } else if is_name(name, "CONTROL") || is_name(name, "CTRL") {
        Some(Key::ControlLeft)
    } else if is_name(name, "COMMAND") || is_name(name, "CMD") || is_name(name, "SUPER") {
        Some(Key::MetaLeft)
    } else if is_name(name, "SHIFT") {
        Some(Key::ShiftLeft)
    } else if is_name(name, "COMMANDORCONTROL") || is_name(name, "COMMANDORCTRL") || is_name(
        name,
        "CMDORCTRL",
    ) || is_name(name, "CMDORCONTROL") {
        if on_macos {
            Some(Key::MetaLeft)
        } else {
            Some(Key::ControlLeft)
        }
    } else {
        key_from_name(name)
    }
}

/// The key of one piece of a combination of several pieces.
pub open spec fn piece_key(hotkey: Seq<char>, piece: Seq<char>, on_macos: bool) -> Result<Key, ParseFailure> {
    let t = trim(piece);
    if t.len() == 0 {
        Err(ParseFailure::EmptyToken(hotkey))
    } else {
        match combo_key_for_name(uppercase(t), on_macos) {
            Some(k) => Ok(k),
            None => Err(ParseFailure::UnknownKey(t)),
        }
    }
}

/// The keys of the pieces, taken from the first; the first piece that fails
/// decides the error.
pub open spec fn pieces_keys(hotkey: Seq<char>, pieces: Seq<Seq<char>>, on_macos: bool) -> Result<Set<Key>, ParseFailure>
    decreases pieces.len(),
{
    if pieces.len() == 0 {
        Ok(Set::empty())
    } else {
        match pieces_keys(hotkey, pieces.drop_last(), on_macos) {
            Err(e) => Err(e),
            Ok(keys) => match piece_key(hotkey, pieces.last(), on_macos) {
                Err(e) => Err(e),
                Ok(k) => Ok(keys.insert(k)),
            },
        }
    }
}

/// What a key combination such as `"Ctrl+Shift+A"` denotes: without a `+`
/// the whole text is one key name (modifier names are not accepted alone);
/// with one, each piece between the `+` signs, trimmed of white space, is a
/// modifier or key name.
pub open spec fn combo_keys(hotkey: Seq<char>, on_macos: bool) -> Result<Set<Key>, ParseFailure> {
    if !hotkey.contains('+') {
        match key_for_name(uppercase(hotkey)) {
            Some(k) => Ok(set![k]),
            None => Err(ParseFailure::UnknownKey(hotkey)),
        }
    } else {
        pieces_keys(hotkey, split_on(hotkey, '+'), on_macos)
    }
}

/// Parses a key combination into the set of keys that must be held together,
/// for macOS when `on_macos` holds.
pub fn parse_combo(hotkey: &str, on_macos: bool) -> (r: Result<KeySet, KeyParseError>)
    ensures
        match r {
            Ok(keys) => combo_keys(hotkey@, on_macos) == Ok::<Set<Key>, ParseFailure>(keys@),
            Err(e) => combo_keys(hotkey@, on_macos) == Err::<Set<Key>, ParseFailure>(e@),
        },
{
    let tokens = split_str(hotkey, '+');
    proof {
        lemma_split_on_len(hotkey@, '+');
    }
    let mut keys = KeySet::new();
    if tokens.len() == 1 {
        proof {
            lemma_split_on_single(hotkey@, '+');
        }
        let k = parse_key(tokens[0].as_str());
        match k {
            Ok(k) => {
                keys.insert(k);
                assert(keys@ =~= set![k]);
                Ok(keys)
            },
            Err(e) => Err(e),
        }
    } else {
        let ghost pieces = split_on(hotkey@, '+');
        let mut i: usize = 0;
        while i < tokens.len()
            invariant
                pieces == split_on(hotkey@, '+'),
                hotkey@.contains('+'),
                tokens@.len() == pieces.len(),
                forall|j: int| 0 <= j < tokens@.len() ==> #[trigger] tokens@[j]@ == pieces[j],
                i <= tokens@.len(),
                pieces_keys(hotkey@, pieces.take(i as int), on_macos) == Ok::<Set<Key>, ParseFailure>(keys@),
            decreases tokens@.len() - i,
        {
            assert(pieces.take(i + 1).drop_last() =~= pieces.take(i as int));
            assert(pieces.take(i + 1).last() == pieces[i as int]);
            let token = trim_str(tokens[i].as_str());
            if token.unicode_len() == 0 {
                proof {
                    lemma_pieces_error_sticks(hotkey@, pieces, i as int + 1, on_macos);
                }
                return Err(KeyParseError::EmptyToken(String::from_str(hotkey)));
            }
            let upper = to_uppercase(token.as_str());
            match combo_key_from_name(&upper, on_macos) {
                Some(k) => keys.insert(k),
                None => {
                    proof {
                        lemma_pieces_error_sticks(hotkey@, pieces, i as int + 1, on_macos);
                    }
                    return Err(KeyParseError::UnknownKey(token));
                },
            }
            i = i + 1;
        }
        assert(pieces.take(tokens@.len() as int) =~= pieces);
        Ok(keys)
    }
}

/// Once a prefix of the pieces fails, every longer prefix fails the same way.
proof fn lemma_pieces_error_sticks(hotkey: Seq<char>, pieces: Seq<Seq<char>>, n: int, on_macos: bool)
    requires
        0 <= n <= pieces.len(),
        pieces_keys(hotkey, pieces.take(n), on_macos) is Err,
    ensures
        pieces_keys(hotkey, pieces, on_macos) == pieces_keys(hotkey, pieces.take(n), on_macos),
    decreases pieces.len() - n,
{
    if n < pieces.len() {
        assert(pieces.take(n + 1).drop_last() =~= pieces.take(n));
        lemma_pieces_error_sticks(hotkey, pieces, n + 1, on_macos);
    } else {
        assert(pieces.take(n) =~= pieces);
    }
}

/// Without the separator, splitting gives back the whole text as one piece.
proof fn lemma_split_on_single(s: Seq<char>, sep: char)
    requires
        split_on(s, sep).len() == 1,
    ensures
        split_on(s, sep)[0] == s,
        !s.contains(sep),
    decreases s.len(),
{
    lemma_split_on_len(s, sep);
    if s.len() > 0 {
        lemma_split_on_len(s.drop_last(), sep);
        assert(s.last() != sep) by {
            if s.last() == sep {
                assert(s[s.len() - 1] == sep);
            }
        }
        lemma_split_on_single(s.drop_last(), sep);
        assert(s.drop_last().push(s.last()) =~= s);
    }
}

/// Every key that a name denotes is side-neutral: modifiers come out as
/// their left-hand variant, so the listener, which ignores sidedness, can
/// match them.
pub proof fn lemma_named_keys_are_side_neutral(name: Seq<char>, on_macos: bool)
    ensures
        key_for_name(name) matches Some(k) ==> spec_side_neutral(k) == k,
        combo_key_for_name(name, on_macos) matches Some(k) ==> spec_side_neutral(k) == k,
{
}

/// The keys of a combination are the keys of its pieces: each piece's key is
/// in the set and each key in the set is some piece's, so neither the order
/// of the pieces nor a repeated piece matters.
pub proof fn lemma_combo_is_union_of_pieces(hotkey: Seq<char>, pieces: Seq<Seq<char>>, on_macos: bool)
    requires
        pieces_keys(hotkey, pieces, on_macos) is Ok,
    ensures
        forall|i: int| 0 <= i < pieces.len() ==> (#[trigger] piece_key(hotkey, pieces[i], on_macos)) is Ok
            && pieces_keys(hotkey, pieces, on_macos)->Ok_0.contains(piece_key(hotkey, pieces[i], on_macos)->Ok_0),
        forall|k: Key| #[trigger] pieces_keys(hotkey, pieces, on_macos)->Ok_0.contains(k) ==> exists|i: int|
            0 <= i < pieces.len() && piece_key(hotkey, pieces[i], on_macos) == Ok::<Key, ParseFailure>(k),
    decreases pieces.len(),
{
    if pieces.len() > 0 {
        let init = pieces.drop_last();
        lemma_combo_is_union_of_pieces(hotkey, init, on_macos);
        let all = pieces_keys(hotkey, pieces, on_macos)->Ok_0;
        assert forall|i: int| 0 <= i < pieces.len() implies (#[trigger] piece_key(hotkey, pieces[i], on_macos)) is Ok
            && all.contains(piece_key(hotkey, pieces[i], on_macos)->Ok_0) by {
            if i < pieces.len() - 1 {
                assert(init[i] == pieces[i]);
            }
        }
        assert forall|k: Key| #[trigger] all.contains(k) implies exists|i: int|
            0 <= i < pieces.len() && piece_key(hotkey, pieces[i], on_macos) == Ok::<Key, ParseFailure>(k) by {
            if k == piece_key(hotkey, pieces.last(), on_macos)->Ok_0 {
                assert(piece_key(hotkey, pieces[pieces.len() - 1], on_macos) == Ok::<Key, ParseFailure>(k));
            } else {
                assert(pieces_keys(hotkey, init, on_macos)->Ok_0.contains(k));
                let i = choose|i: int| 0 <= i < init.len() && piece_key(hotkey, init[i], on_macos) == Ok::<Key, ParseFailure>(k);
                assert(init[i] == pieces[i]);
            }
        }
    }
}

/// Every key of a parsed combination is side-neutral.
pub proof fn lemma_combo_keys_are_side_neutral(hotkey: Seq<char>, on_macos: bool)
    requires
        combo_keys(hotkey, on_macos) is Ok,
    ensures
        forall|k: Key| #[trigger] combo_keys(hotkey, on_macos)->Ok_0.contains(k) ==> spec_side_neutral(k) == k,
{
    if !hotkey.contains('+') {
        lemma_named_keys_are_side_neutral(uppercase(hotkey), on_macos);
    } else {
        let pieces = split_on(hotkey, '+');
        lemma_combo_is_union_of_pieces(hotkey, pieces, on_macos);
        assert forall|k: Key| #[trigger] combo_keys(hotkey, on_macos)->Ok_0.contains(k) implies spec_side_neutral(k) == k by {
            let i = choose|i: int| 0 <= i < pieces.len() && piece_key(hotkey, pieces[i], on_macos) == Ok::<Key, ParseFailure>(k);
            lemma_named_keys_are_side_neutral(uppercase(trim(pieces[i])), on_macos);
        }
    }
}

/// When every piece has a key, so do the pieces together.
proof fn lemma_pieces_all_ok(hotkey: Seq<char>, pieces: Seq<Seq<char>>, on_macos: bool)
    requires
        forall|i: int| 0 <= i < pieces.len() ==> (#[trigger] piece_key(hotkey, pieces[i], on_macos)) is Ok,
    ensures
        pieces_keys(hotkey, pieces, on_macos) is Ok,
    decreases pieces.len(),
{
    if pieces.len() > 0 {
        let init = pieces.drop_last();
        assert forall|i: int| 0 <= i < init.len() implies (#[trigger] piece_key(hotkey, init[i], on_macos)) is Ok by {
            assert(init[i] == pieces[i]);
        }
        lemma_pieces_all_ok(hotkey, init, on_macos);
        assert(piece_key(hotkey, pieces[pieces.len() - 1], on_macos) is Ok);
    }
}

/// Pieces that are the same texts give the same keys, whatever the order
/// of the pieces, repeated pieces and the text they come from: the result is
/// a success for both or for neither, and then the same set.
pub proof fn lemma_pieces_order_does_not_matter(
    hotkey1: Seq<char>,
    pieces1: Seq<Seq<char>>,
    hotkey2: Seq<char>,
    pieces2: Seq<Seq<char>>,
    on_macos: bool,
)
    requires
        pieces1.to_set() == pieces2.to_set(),
    ensures
        pieces_keys(hotkey1, pieces1, on_macos) is Ok <==> pieces_keys(hotkey2, pieces2, on_macos) is Ok,
        pieces_keys(hotkey1, pieces1, on_macos) is Ok ==> pieces_keys(hotkey1, pieces1, on_macos) == pieces_keys(hotkey2, pieces2, on_macos),
{
    if pieces_keys(hotkey1, pieces1, on_macos) is Ok {
        lemma_pieces_same_set_ok(hotkey1, pieces1, hotkey2, pieces2, on_macos);
    }
    if pieces_keys(hotkey2, pieces2, on_macos) is Ok {
        lemma_pieces_same_set_ok(hotkey2, pieces2, hotkey1, pieces1, on_macos);
    }
    if pieces_keys(hotkey1, pieces1, on_macos) is Ok {
        lemma_combo_is_union_of_pieces(hotkey1, pieces1, on_macos);
        lemma_combo_is_union_of_pieces(hotkey2, pieces2, on_macos);
        let a = pieces_keys(hotkey1, pieces1, on_macos)->Ok_0;
        let b = pieces_keys(hotkey2, pieces2, on_macos)->Ok_0;
        assert forall|k: Key| a.contains(k) <==> b.contains(k) by {
            if a.contains(k) {
                let i = choose|i: int| 0 <= i < pieces1.len() && piece_key(hotkey1, pieces1[i], on_macos) == Ok::<Key, ParseFailure>(k);
                assert(pieces1.to_set().contains(pieces1[i]));
                assert(pieces2.contains(pieces1[i]));
                let j = choose|j: int| 0 <= j < pieces2.len() && pieces2[j] == pieces1[i];
                assert(piece_key(hotkey2, pieces2[j], on_macos) is Ok);
            }
            if b.contains(k) {
                let j = choose|j: int| 0 <= j < pieces2.len() && piece_key(hotkey2, pieces2[j], on_macos) == Ok::<Key, ParseFailure>(k);
                assert(pieces2.to_set().contains(pieces2[j]));
                assert(pieces1.contains(pieces2[j]));
                let i = choose|i: int| 0 <= i < pieces1.len() && pieces1[i] == pieces2[j];
                assert(piece_key(hotkey1, pieces1[i], on_macos) is Ok);
            }
        }
        assert(a =~= b);
    }
}

/// If the first pieces all have keys, so do pieces drawn from the same texts.
proof fn lemma_pieces_same_set_ok(
    hotkey1: Seq<char>,
    pieces1: Seq<Seq<char>>,
    hotkey2: Seq<char>,
    pieces2: Seq<Seq<char>>,
    on_macos: bool,
)
    requires
        pieces1.to_set() == pieces2.to_set(),
        pieces_keys(hotkey1, pieces1, on_macos) is Ok,
    ensures
        pieces_keys(hotkey2, pieces2, on_macos) is Ok,
{
    lemma_combo_is_union_of_pieces(hotkey1, pieces1, on_macos);
    assert forall|j: int| 0 <= j < pieces2.len() implies (#[trigger] piece_key(hotkey2, pieces2[j], on_macos)) is Ok by {
        assert(pieces2.to_set().contains(pieces2[j]));
        assert(pieces1.contains(pieces2[j]));
        let i = choose|i: int| 0 <= i < pieces1.len() && pieces1[i] == pieces2[j];
        assert(piece_key(hotkey1, pieces1[i], on_macos) is Ok);
    }
    lemma_pieces_all_ok(hotkey2, pieces2, on_macos);
}

/// Two combinations with a `+` whose pieces are the same texts (in any
/// order, any number of times) parse alike: both succeed or both fail, and
/// when they succeed they give the same keys. So "A+Shift+Ctrl" and
/// "Ctrl+Shift+A" denote the same hotkey.
pub proof fn lemma_combo_order_does_not_matter(hotkey1: Seq<char>, hotkey2: Seq<char>, on_macos: bool)
    requires
        hotkey1.contains('+'),
        hotkey2.contains('+'),
        split_on(hotkey1, '+').to_set() == split_on(hotkey2, '+').to_set(),
    ensures
        combo_keys(hotkey1, on_macos) is Ok <==> combo_keys(hotkey2, on_macos) is Ok,
        combo_keys(hotkey1, on_macos) is Ok ==> combo_keys(hotkey1, on_macos) == combo_keys(hotkey2, on_macos),
{
    lemma_pieces_order_does_not_matter(hotkey1, split_on(hotkey1, '+'), hotkey2, split_on(hotkey2, '+'), on_macos);
}

/// Inside a combination the modifier names denote the modifiers: Option and
/// Alt the Alt key; Control and Ctrl the Control key; Command, Cmd and Super
/// the Meta key; Shift the Shift key; and each "Command or Control" name the
/// Meta key on macOS and the Control key elsewhere.
pub proof fn lemma_modifier_names(on_macos: bool)
    ensures
        combo_key_for_name("OPTION"@, on_macos) == Some(Key::Alt),
        combo_key_for_name("ALT"@, on_macos) == Some(Key::Alt),
        combo_key_for_name("CONTROL"@, on_macos) == Some(Key::ControlLeft),
        combo_key_for_name("CTRL"@, on_macos) == Some(Key::ControlLeft),
        combo_key_for_name("COMMAND"@, on_macos) == Some(Key::MetaLeft),
        combo_key_for_name("CMD"@, on_macos) == Some(Key::MetaLeft),
        combo_key_for_name("SUPER"@, on_macos) == Some(Key::MetaLeft),
        combo_key_for_name("SHIFT"@, on_macos) == Some(Key::ShiftLeft),
        combo_key_for_name("COMMANDORCONTROL"@, on_macos) == Some(if on_macos { Key::MetaLeft } else { Key::ControlLeft }),
        combo_key_for_name("COMMANDORCTRL"@, on_macos) == Some(if on_macos { Key::MetaLeft } else { Key::ControlLeft }),
        combo_key_for_name("CMDORCTRL"@, on_macos) == Some(if on_macos { Key::MetaLeft } else { Key::ControlLeft }),
        combo_key_for_name("CMDORCONTROL"@, on_macos) == Some(if on_macos { Key::MetaLeft } else { Key::ControlLeft }),
{
    lemma_digit_row_spellings_1();
    lemma_digit_row_spellings_2();
    lemma_digit_row_spellings_3();
    lemma_digit_row_spellings_4();
    lemma_letter_spellings_1();
    lemma_letter_spellings_2();
    lemma_letter_spellings_3();
    lemma_letter_spellings_4();
    lemma_editing_spellings_1();
    lemma_editing_spellings_2();
    lemma_editing_spellings_3();
    lemma_navigation_spellings_1();
    lemma_navigation_spellings_2();
    lemma_navigation_spellings_3();
    lemma_keypad_spellings_1();
    lemma_keypad_spellings_2();
    lemma_keypad_spellings_3();
    lemma_keypad_spellings_4();
    lemma_keypad_spellings_5();
    lemma_keypad_spellings_6();
    lemma_keypad_spellings_7();
    lemma_function_spellings_1();
    lemma_function_spellings_2();
    lemma_modifier_spellings_1();
    lemma_modifier_spellings_2();
    lemma_modifier_spellings_3();
}

/// How some of the digit row names are spelled, character by character.
proof fn lemma_digit_row_spellings_1()
    ensures
        "BACKQUOTE"@.len() == 9,
        "BACKQUOTE"@[0] == 'B',
        "BACKQUOTE"@[1] == 'A',
        "BACKQUOTE"@[2] == 'C',
        "BACKQUOTE"@[3] == 'K',
        "BACKQUOTE"@[4] == 'Q',
        "BACKQUOTE"@[5] == 'U',
        "BACKQUOTE"@[6] == 'O',
        "BACKQUOTE"@[7] == 'T',
        "BACKQUOTE"@[8] == 'E',
        "`"@.len() == 1,
        "`"@[0] == '`',
        "BACKSLASH"@.len() == 9,
        "BACKSLASH"@[0] == 'B',
        "BACKSLASH"@[1] == 'A',
        "BACKSLASH"@[2] == 'C',
        "BACKSLASH"@[3] == 'K',
        "BACKSLASH"@[4] == 'S',
        "BACKSLASH"@[5] == 'L',
        "BACKSLASH"@[6] == 'A',
        "BACKSLASH"@[7] == 'S',
        "BACKSLASH"@[8] == 'H',
        "\\"@.len() == 1,
        "\\"@[0] == '\\',
        "BRACKETLEFT"@.len() == 11,
        "BRACKETLEFT"@[0] == 'B',
        "BRACKETLEFT"@[1] == 'R',
        "BRACKETLEFT"@[2] == 'A',
        "BRACKETLEFT"@[3] == 'C',
        "BRACKETLEFT"@[4] == 'K',
        "BRACKETLEFT"@[5] == 'E',
        "BRACKETLEFT"@[6] == 'T',
        "BRACKETLEFT"@[7] == 'L',
        "BRACKETLEFT"@[8] == 'E',
        "BRACKETLEFT"@[9] == 'F',
        "BRACKETLEFT"@[10] == 'T',
        "["@.len() == 1,
        "["@[0] == '[',
{
    reveal_strlit("BACKQUOTE");
    reveal_strlit("`");
    reveal_strlit("BACKSLASH");
    reveal_strlit("\\");
    reveal_strlit("BRACKETLEFT");
    reveal_strlit("[");
}

/// How some of the digit row names are spelled, character by character.
proof fn lemma_digit_row_spellings_2()
    ensures
        "BRACKETRIGHT"@.len() == 12,
        "BRACKETRIGHT"@[0] == 'B',
        "BRACKETRIGHT"@[1] == 'R',
        "BRACKETRIGHT"@[2] == 'A',
        "BRACKETRIGHT"@[3] == 'C',
        "BRACKETRIGHT"@[4] == 'K',
        "BRACKETRIGHT"@[5] == 'E',
        "BRACKETRIGHT"@[6] == 'T',
        "BRACKETRIGHT"@[7] == 'R',
        "BRACKETRIGHT"@[8] == 'I',
        "BRACKETRIGHT"@[9] == 'G',
        "BRACKETRIGHT"@[10] == 'H',
        "BRACKETRIGHT"@[11] == 'T',
        "]"@.len() == 1,
        "]"@[0] == ']',
        "PAUSE"@.len() == 5,
        "PAUSE"@[0] == 'P',
        "PAUSE"@[1] == 'A',
        "PAUSE"@[2] == 'U',
        "PAUSE"@[3] == 'S',
        "PAUSE"@[4] == 'E',
        "PAUSEBREAK"@.len() == 10,
        "PAUSEBREAK"@[0] == 'P',
        "PAUSEBREAK"@[1] == 'A',
        "PAUSEBREAK"@[2] == 'U',
        "PAUSEBREAK"@[3] == 'S',
        "PAUSEBREAK"@[4] == 'E',
        "PAUSEBREAK"@[5] == 'B',
        "PAUSEBREAK"@[6] == 'R',
        "PAUSEBREAK"@[7] == 'E',
        "PAUSEBREAK"@[8] == 'A',
        "PAUSEBREAK"@[9] == 'K',
        "COMMA"@.len() == 5,
        "COMMA"@[0] == 'C',
        "COMMA"@[1] == 'O',
        "COMMA"@[2] == 'M',
        "COMMA"@[3] == 'M',
        "COMMA"@[4] == 'A',
        ","@.len() == 1,
        ","@[0] == ',',
        "DIGIT0"@.len() == 6,
        "DIGIT0"@[0] == 'D',
        "DIGIT0"@[1] == 'I',
        "DIGIT0"@[2] == 'G',
        "DIGIT0"@[3] == 'I',
        "DIGIT0"@[4] == 'T',
        "DIGIT0"@[5] == '0',
{
    reveal_strlit("BRACKETRIGHT");
    reveal_strlit("]");
    reveal_strlit("PAUSE");
    reveal_strlit("PAUSEBREAK");
    reveal_strlit("COMMA");
    reveal_strlit(",");
    reveal_strlit("DIGIT0");
}

/// How some of the digit row names are spelled, character by character.
proof fn lemma_digit_row_spellings_3()
    ensures
        "0"@.len() == 1,
        "0"@[0] == '0',
        "DIGIT1"@.len() == 6,
        "DIGIT1"@[0] == 'D',
        "DIGIT1"@[1] == 'I',
        "DIGIT1"@[2] == 'G',
        "DIGIT1"@[3] == 'I',
        "DIGIT1"@[4] == 'T',
        "DIGIT1"@[5] == '1',
        "1"@.len() == 1,
        "1"@[0] == '1',
        "DIGIT2"@.len() == 6,
        "DIGIT2"@[0] == 'D',
        "DIGIT2"@[1] == 'I',
        "DIGIT2"@[2] == 'G',
        "DIGIT2"@[3] == 'I',
        "DIGIT2"@[4] == 'T',
        "DIGIT2"@[5] == '2',
        "2"@.len() == 1,
        "2"@[0] == '2',
        "DIGIT3"@.len() == 6,
        "DIGIT3"@[0] == 'D',
        "DIGIT3"@[1] == 'I',
        "DIGIT3"@[2] == 'G',
        "DIGIT3"@[3] == 'I',
        "DIGIT3"@[4] == 'T',
        "DIGIT3"@[5] == '3',
        "3"@.len() == 1,
        "3"@[0] == '3',
        "DIGIT4"@.len() == 6,
        "DIGIT4"@[0] == 'D',
        "DIGIT4"@[1] == 'I',
        "DIGIT4"@[2] == 'G',
        "DIGIT4"@[3] == 'I',
        "DIGIT4"@[4] == 'T',
        "DIGIT4"@[5] == '4',
        "4"@.len() == 1,
        "4"@[0] == '4',
        "DIGIT5"@.len() == 6,
        "DIGIT5"@[0] == 'D',
        "DIGIT5"@[1] == 'I',
        "DIGIT5"@[2] == 'G',
        "DIGIT5"@[3] == 'I',
        "DIGIT5"@[4] == 'T',
        "DIGIT5"@[5] == '5',
        "5"@.len() == 1,
        "5"@[0] == '5',
{
    reveal_strlit("0");
    reveal_strlit("DIGIT1");
    reveal_strlit("1");
    reveal_strlit("DIGIT2");
    reveal_strlit("2");
    reveal_strlit("DIGIT3");
    reveal_strlit("3");
    reveal_strlit("DIGIT4");
    reveal_strlit("4");
    reveal_strlit("DIGIT5");
    reveal_strlit("5");
}

/// How some of the digit row names are spelled, character by character.
proof fn lemma_digit_row_spellings_4()
    ensures
        "DIGIT6"@.len() == 6,
        "DIGIT6"@[0] == 'D',
        "DIGIT6"@[1] == 'I',
        "DIGIT6"@[2] == 'G',
        "DIGIT6"@[3] == 'I',
        "DIGIT6"@[4] == 'T',
        "DIGIT6"@[5] == '6',
        "6"@.len() == 1,
        "6"@[0] == '6',
        "DIGIT7"@.len() == 6,
        "DIGIT7"@[0] == 'D',
        "DIGIT7"@[1] == 'I',
        "DIGIT7"@[2] == 'G',
        "DIGIT7"@[3] == 'I',
        "DIGIT7"@[4] == 'T',
        "DIGIT7"@[5] == '7',
        "7"@.len() == 1,
        "7"@[0] == '7',
        "DIGIT8"@.len() == 6,
        "DIGIT8"@[0] == 'D',
        "DIGIT8"@[1] == 'I',
        "DIGIT8"@[2] == 'G',
        "DIGIT8"@[3] == 'I',
        "DIGIT8"@[4] == 'T',
        "DIGIT8"@[5] == '8',
        "8"@.len() == 1,
        "8"@[0] == '8',
        "DIGIT9"@.len() == 6,
        "DIGIT9"@[0] == 'D',
        "DIGIT9"@[1] == 'I',
        "DIGIT9"@[2] == 'G',
        "DIGIT9"@[3] == 'I',
        "DIGIT9"@[4] == 'T',
        "DIGIT9"@[5] == '9',
        "9"@.len() == 1,
        "9"@[0] == '9',
        "EQUAL"@.len() == 5,
        "EQUAL"@[0] == 'E',
        "EQUAL"@[1] == 'Q',
        "EQUAL"@[2] == 'U',
        "EQUAL"@[3] == 'A',
        "EQUAL"@[4] == 'L',
        "="@.len() == 1,
        "="@[0] == '=',
{
    reveal_strlit("DIGIT6");
    reveal_strlit("6");
    reveal_strlit("DIGIT7");
    reveal_strlit("7");
    reveal_strlit("DIGIT8");
    reveal_strlit("8");
    reveal_strlit("DIGIT9");
    reveal_strlit("9");
    reveal_strlit("EQUAL");
    reveal_strlit("=");
}

/// How some of the letter names are spelled, character by character.
proof fn lemma_letter_spellings_1()
    ensures
        "KEYA"@.len() == 4,
        "KEYA"@[0] == 'K',
        "KEYA"@[1] == 'E',
        "KEYA"@[2] == 'Y',
        "KEYA"@[3] == 'A',
        "A"@.len() == 1,
        "A"@[0] == 'A',
        "KEYB"@.len() == 4,
        "KEYB"@[0] == 'K',
        "KEYB"@[1] == 'E',
        "KEYB"@[2] == 'Y',
        "KEYB"@[3] == 'B',
        "B"@.len() == 1,
        "B"@[0] == 'B',
        "KEYC"@.len() == 4,
        "KEYC"@[0] == 'K',
        "KEYC"@[1] == 'E',
        "KEYC"@[2] == 'Y',
        "KEYC"@[3] == 'C',
        "C"@.len() == 1,
        "C"@[0] == 'C',
        "KEYD"@.len() == 4,
        "KEYD"@[0] == 'K',
        "KEYD"@[1] == 'E',
        "KEYD"@[2] == 'Y',
        "KEYD"@[3] == 'D',
        "D"@.len() == 1,
        "D"@[0] == 'D',
        "KEYE"@.len() == 4,
        "KEYE"@[0] == 'K',
        "KEYE"@[1] == 'E',
        "KEYE"@[2] == 'Y',
        "KEYE"@[3] == 'E',
        "E"@.len() == 1,
        "E"@[0] == 'E',
        "KEYF"@.len() == 4,
        "KEYF"@[0] == 'K',
        "KEYF"@[1] == 'E',
        "KEYF"@[2] == 'Y',
        "KEYF"@[3] == 'F',
        "F"@.len() == 1,
        "F"@[0] == 'F',
        "KEYG"@.len() == 4,
        "KEYG"@[0] == 'K',
        "KEYG"@[1] == 'E',
        "KEYG"@[2] == 'Y',
        "KEYG"@[3] == 'G',
{
    reveal_strlit("KEYA");
    reveal_strlit("A");
    reveal_strlit("KEYB");
    reveal_strlit("B");
    reveal_strlit("KEYC");
    reveal_strlit("C");
    reveal_strlit("KEYD");
    reveal_strlit("D");
    reveal_strlit("KEYE");
    reveal_strlit("E");
    reveal_strlit("KEYF");
    reveal_strlit("F");
    reveal_strlit("KEYG");
}

/// How some of the letter names are spelled, character by character.
proof fn lemma_letter_spellings_2()
    ensures
        "G"@.len() == 1,
        "G"@[0] == 'G',
        "KEYH"@.len() == 4,
        "KEYH"@[0] == 'K',
        "KEYH"@[1] == 'E',
        "KEYH"@[2] == 'Y',
        "KEYH"@[3] == 'H',
        "H"@.len() == 1,
        "H"@[0] == 'H',
        "KEYI"@.len() == 4,
        "KEYI"@[0] == 'K',
        "KEYI"@[1] == 'E',
        "KEYI"@[2] == 'Y',
        "KEYI"@[3] == 'I',
        "I"@.len() == 1,
        "I"@[0] == 'I',
        "KEYJ"@.len() == 4,
        "KEYJ"@[0] == 'K',
        "KEYJ"@[1] == 'E',
        "KEYJ"@[2] == 'Y',
        "KEYJ"@[3] == 'J',
        "J"@.len() == 1,
        "J"@[0] == 'J',
        "KEYK"@.len() == 4,
        "KEYK"@[0] == 'K',
        "KEYK"@[1] == 'E',
        "KEYK"@[2] == 'Y',
        "KEYK"@[3] == 'K',
        "K"@.len() == 1,
        "K"@[0] == 'K',
        "KEYL"@.len() == 4,
        "KEYL"@[0] == 'K',
        "KEYL"@[1] == 'E',
        "KEYL"@[2] == 'Y',
        "KEYL"@[3] == 'L',
        "L"@.len() == 1,
        "L"@[0] == 'L',
        "KEYM"@.len() == 4,
        "KEYM"@[0] == 'K',
        "KEYM"@[1] == 'E',
        "KEYM"@[2] == 'Y',
        "KEYM"@[3] == 'M',
        "M"@.len() == 1,
        "M"@[0] == 'M',
{
    reveal_strlit("G");
    reveal_strlit("KEYH");
    reveal_strlit("H");
    reveal_strlit("KEYI");
    reveal_strlit("I");
    reveal_strlit("KEYJ");
    reveal_strlit("J");
    reveal_strlit("KEYK");
    reveal_strlit("K");
    reveal_strlit("KEYL");
    reveal_strlit("L");
    reveal_strlit("KEYM");
    reveal_strlit("M");
}

/// How some of the letter names are spelled, character by character.
proof fn lemma_letter_spellings_3()
    ensures
        "KEYN"@.len() == 4,
        "KEYN"@[0] == 'K',
        "KEYN"@[1] == 'E',
        "KEYN"@[2] == 'Y',
        "KEYN"@[3] == 'N',
        "N"@.len() == 1,
        "N"@[0] == 'N',
        "KEYO"@.len() == 4,
        "KEYO"@[0] == 'K',
        "KEYO"@[1] == 'E',
        "KEYO"@[2] == 'Y',
        "KEYO"@[3] == 'O',
        "O"@.len() == 1,
        "O"@[0] == 'O',
        "KEYP"@.len() == 4,
        "KEYP"@[0] == 'K',
        "KEYP"@[1] == 'E',
        "KEYP"@[2] == 'Y',
        "KEYP"@[3] == 'P',
        "P"@.len() == 1,
        "P"@[0] == 'P',
        "KEYQ"@.len() == 4,
        "KEYQ"@[0] == 'K',
        "KEYQ"@[1] == 'E',
        "KEYQ"@[2] == 'Y',
        "KEYQ"@[3] == 'Q',
        "Q"@.len() == 1,
        "Q"@[0] == 'Q',
        "KEYR"@.len() == 4,
        "KEYR"@[0] == 'K',
        "KEYR"@[1] == 'E',
        "KEYR"@[2] == 'Y',
        "KEYR"@[3] == 'R',
        "R"@.len() == 1,
        "R"@[0] == 'R',
        "KEYS"@.len() == 4,
        "KEYS"@[0] == 'K',
        "KEYS"@[1] == 'E',
        "KEYS"@[2] == 'Y',
        "KEYS"@[3] == 'S',
        "S"@.len() == 1,
        "S"@[0] == 'S',
        "KEYT"@.len() == 4,
        "KEYT"@[0] == 'K',
        "KEYT"@[1] == 'E',
        "KEYT"@[2] == 'Y',
        "KEYT"@[3] == 'T',
{
    reveal_strlit("KEYN");
    reveal_strlit("N");
    reveal_strlit("KEYO");
    reveal_strlit("O");
    reveal_strlit("KEYP");
    reveal_strlit("P");
    reveal_strlit("KEYQ");
    reveal_strlit("Q");
    reveal_strlit("KEYR");
    reveal_strlit("R");
    reveal_strlit("KEYS");
    reveal_strlit("S");
    reveal_strlit("KEYT");
}

/// How some of the letter names are spelled, character by character.
proof fn lemma_letter_spellings_4()
    ensures
        "T"@.len() == 1,
        "T"@[0] == 'T',
        "KEYU"@.len() == 4,
        "KEYU"@[0] == 'K',
        "KEYU"@[1] == 'E',
        "KEYU"@[2] == 'Y',
        "KEYU"@[3] == 'U',
        "U"@.len() == 1,
        "U"@[0] == 'U',
        "KEYV"@.len() == 4,
        "KEYV"@[0] == 'K',
        "KEYV"@[1] == 'E',
        "KEYV"@[2] == 'Y',
        "KEYV"@[3] == 'V',
        "V"@.len() == 1,
        "V"@[0] == 'V',
        "KEYW"@.len() == 4,
        "KEYW"@[0] == 'K',
        "KEYW"@[1] == 'E',
        "KEYW"@[2] == 'Y',
        "KEYW"@[3] == 'W',
        "W"@.len() == 1,
        "W"@[0] == 'W',
        "KEYX"@.len() == 4,
        "KEYX"@[0] == 'K',
        "KEYX"@[1] == 'E',
        "KEYX"@[2] == 'Y',
        "KEYX"@[3] == 'X',
        "X"@.len() == 1,
        "X"@[0] == 'X',
        "KEYY"@.len() == 4,
        "KEYY"@[0] == 'K',
        "KEYY"@[1] == 'E',
        "KEYY"@[2] == 'Y',
        "KEYY"@[3] == 'Y',
        "Y"@.len() == 1,
        "Y"@[0] == 'Y',
        "KEYZ"@.len() == 4,
        "KEYZ"@[0] == 'K',
        "KEYZ"@[1] == 'E',
        "KEYZ"@[2] == 'Y',
        "KEYZ"@[3] == 'Z',
        "Z"@.len() == 1,
        "Z"@[0] == 'Z',
{
    reveal_strlit("T");
    reveal_strlit("KEYU");
    reveal_strlit("U");
    reveal_strlit("KEYV");
    reveal_strlit("V");
    reveal_strlit("KEYW");
    reveal_strlit("W");
    reveal_strlit("KEYX");
    reveal_strlit("X");
    reveal_strlit("KEYY");
    reveal_strlit("Y");
    reveal_strlit("KEYZ");
    reveal_strlit("Z");
}

/// How some of the editing names are spelled, character by character.
proof fn lemma_editing_spellings_1()
    ensures
        "MINUS"@.len() == 5,
        "MINUS"@[0] == 'M',
        "MINUS"@[1] == 'I',
        "MINUS"@[2] == 'N',
        "MINUS"@[3] == 'U',
        "MINUS"@[4] == 'S',
        "-"@.len() == 1,
        "-"@[0] == '-',
        "PERIOD"@.len() == 6,
        "PERIOD"@[0] == 'P',
        "PERIOD"@[1] == 'E',
        "PERIOD"@[2] == 'R',
        "PERIOD"@[3] == 'I',
        "PERIOD"@[4] == 'O',
        "PERIOD"@[5] == 'D',
        "."@.len() == 1,
        "."@[0] == '.',
        "QUOTE"@.len() == 5,
        "QUOTE"@[0] == 'Q',
        "QUOTE"@[1] == 'U',
        "QUOTE"@[2] == 'O',
        "QUOTE"@[3] == 'T',
        "QUOTE"@[4] == 'E',
        "'"@.len() == 1,
        "'"@[0] == '\'',
        "SEMICOLON"@.len() == 9,
        "SEMICOLON"@[0] == 'S',
        "SEMICOLON"@[1] == 'E',
        "SEMICOLON"@[2] == 'M',
        "SEMICOLON"@[3] == 'I',
        "SEMICOLON"@[4] == 'C',
        "SEMICOLON"@[5] == 'O',
        "SEMICOLON"@[6] == 'L',
        "SEMICOLON"@[7] == 'O',
        "SEMICOLON"@[8] == 'N',
        ";"@.len() == 1,
        ";"@[0] == ';',
        "SLASH"@.len() == 5,
        "SLASH"@[0] == 'S',
        "SLASH"@[1] == 'L',
        "SLASH"@[2] == 'A',
        "SLASH"@[3] == 'S',
        "SLASH"@[4] == 'H',
        "/"@.len() == 1,
        "/"@[0] == '/',
{
    reveal_strlit("MINUS");
    reveal_strlit("-");
    reveal_strlit("PERIOD");
    reveal_strlit(".");
    reveal_strlit("QUOTE");
    reveal_strlit("'");
    reveal_strlit("SEMICOLON");
    reveal_strlit(";");
    reveal_strlit("SLASH");
    reveal_strlit("/");
}

/// How some of the editing names are spelled, character by character.
proof fn lemma_editing_spellings_2()
    ensures
        "BACKSPACE"@.len() == 9,
        "BACKSPACE"@[0] == 'B',
        "BACKSPACE"@[1] == 'A',
        "BACKSPACE"@[2] == 'C',
        "BACKSPACE"@[3] == 'K',
        "BACKSPACE"@[4] == 'S',
        "BACKSPACE"@[5] == 'P',
        "BACKSPACE"@[6] == 'A',
        "BACKSPACE"@[7] == 'C',
        "BACKSPACE"@[8] == 'E',
        "CAPSLOCK"@.len() == 8,
        "CAPSLOCK"@[0] == 'C',
        "CAPSLOCK"@[1] == 'A',
        "CAPSLOCK"@[2] == 'P',
        "CAPSLOCK"@[3] == 'S',
        "CAPSLOCK"@[4] == 'L',
        "CAPSLOCK"@[5] == 'O',
        "CAPSLOCK"@[6] == 'C',
        "CAPSLOCK"@[7] == 'K',
        "ENTER"@.len() == 5,
        "ENTER"@[0] == 'E',
        "ENTER"@[1] == 'N',
        "ENTER"@[2] == 'T',
        "ENTER"@[3] == 'E',
        "ENTER"@[4] == 'R',
        "SPACE"@.len() == 5,
        "SPACE"@[0] == 'S',
        "SPACE"@[1] == 'P',
        "SPACE"@[2] == 'A',
        "SPACE"@[3] == 'C',
        "SPACE"@[4] == 'E',
        "TAB"@.len() == 3,
        "TAB"@[0] == 'T',
        "TAB"@[1] == 'A',
        "TAB"@[2] == 'B',
        "DELETE"@.len() == 6,
        "DELETE"@[0] == 'D',
        "DELETE"@[1] == 'E',
        "DELETE"@[2] == 'L',
        "DELETE"@[3] == 'E',
        "DELETE"@[4] == 'T',
        "DELETE"@[5] == 'E',
        "END"@.len() == 3,
        "END"@[0] == 'E',
        "END"@[1] == 'N',
        "END"@[2] == 'D',
{
    reveal_strlit("BACKSPACE");
    reveal_strlit("CAPSLOCK");
    reveal_strlit("ENTER");
    reveal_strlit("SPACE");
    reveal_strlit("TAB");
    reveal_strlit("DELETE");
    reveal_strlit("END");
}

/// How some of the editing names are spelled, character by character.
proof fn lemma_editing_spellings_3()
    ensures
        "HOME"@.len() == 4,
        "HOME"@[0] == 'H',
        "HOME"@[1] == 'O',
        "HOME"@[2] == 'M',
        "HOME"@[3] == 'E',
        "INSERT"@.len() == 6,
        "INSERT"@[0] == 'I',
        "INSERT"@[1] == 'N',
        "INSERT"@[2] == 'S',
        "INSERT"@[3] == 'E',
        "INSERT"@[4] == 'R',
        "INSERT"@[5] == 'T',
{
    reveal_strlit("HOME");
    reveal_strlit("INSERT");
}

/// How some of the navigation names are spelled, character by character.
proof fn lemma_navigation_spellings_1()
    ensures
        "PAGEDOWN"@.len() == 8,
        "PAGEDOWN"@[0] == 'P',
        "PAGEDOWN"@[1] == 'A',
        "PAGEDOWN"@[2] == 'G',
        "PAGEDOWN"@[3] == 'E',
        "PAGEDOWN"@[4] == 'D',
        "PAGEDOWN"@[5] == 'O',
        "PAGEDOWN"@[6] == 'W',
        "PAGEDOWN"@[7] == 'N',
        "PAGEUP"@.len() == 6,
        "PAGEUP"@[0] == 'P',
        "PAGEUP"@[1] == 'A',
        "PAGEUP"@[2] == 'G',
        "PAGEUP"@[3] == 'E',
        "PAGEUP"@[4] == 'U',
        "PAGEUP"@[5] == 'P',
        "PRINTSCREEN"@.len() == 11,
        "PRINTSCREEN"@[0] == 'P',
        "PRINTSCREEN"@[1] == 'R',
        "PRINTSCREEN"@[2] == 'I',
        "PRINTSCREEN"@[3] == 'N',
        "PRINTSCREEN"@[4] == 'T',
        "PRINTSCREEN"@[5] == 'S',
        "PRINTSCREEN"@[6] == 'C',
        "PRINTSCREEN"@[7] == 'R',
        "PRINTSCREEN"@[8] == 'E',
        "PRINTSCREEN"@[9] == 'E',
        "PRINTSCREEN"@[10] == 'N',
        "SCROLLLOCK"@.len() == 10,
        "SCROLLLOCK"@[0] == 'S',
        "SCROLLLOCK"@[1] == 'C',
        "SCROLLLOCK"@[2] == 'R',
        "SCROLLLOCK"@[3] == 'O',
        "SCROLLLOCK"@[4] == 'L',
        "SCROLLLOCK"@[5] == 'L',
        "SCROLLLOCK"@[6] == 'L',
        "SCROLLLOCK"@[7] == 'O',
        "SCROLLLOCK"@[8] == 'C',
        "SCROLLLOCK"@[9] == 'K',
{
    reveal_strlit("PAGEDOWN");
    reveal_strlit("PAGEUP");
    reveal_strlit("PRINTSCREEN");
    reveal_strlit("SCROLLLOCK");
}

/// How some of the navigation names are spelled, character by character.
proof fn lemma_navigation_spellings_2()
    ensures
        "ARROWDOWN"@.len() == 9,
        "ARROWDOWN"@[0] == 'A',
        "ARROWDOWN"@[1] == 'R',
        "ARROWDOWN"@[2] == 'R',
        "ARROWDOWN"@[3] == 'O',
        "ARROWDOWN"@[4] == 'W',
        "ARROWDOWN"@[5] == 'D',
        "ARROWDOWN"@[6] == 'O',
        "ARROWDOWN"@[7] == 'W',
        "ARROWDOWN"@[8] == 'N',
        "DOWN"@.len() == 4,
        "DOWN"@[0] == 'D',
        "DOWN"@[1] == 'O',
        "DOWN"@[2] == 'W',
        "DOWN"@[3] == 'N',
        "ARROWLEFT"@.len() == 9,
        "ARROWLEFT"@[0] == 'A',
        "ARROWLEFT"@[1] == 'R',
        "ARROWLEFT"@[2] == 'R',
        "ARROWLEFT"@[3] == 'O',
        "ARROWLEFT"@[4] == 'W',
        "ARROWLEFT"@[5] == 'L',
        "ARROWLEFT"@[6] == 'E',
        "ARROWLEFT"@[7] == 'F',
        "ARROWLEFT"@[8] == 'T',
        "LEFT"@.len() == 4,
        "LEFT"@[0] == 'L',
        "LEFT"@[1] == 'E',
        "LEFT"@[2] == 'F',
        "LEFT"@[3] == 'T',
        "ARROWRIGHT"@.len() == 10,
        "ARROWRIGHT"@[0] == 'A',
        "ARROWRIGHT"@[1] == 'R',
        "ARROWRIGHT"@[2] == 'R',
        "ARROWRIGHT"@[3] == 'O',
        "ARROWRIGHT"@[4] == 'W',
        "ARROWRIGHT"@[5] == 'R',
        "ARROWRIGHT"@[6] == 'I',
        "ARROWRIGHT"@[7] == 'G',
        "ARROWRIGHT"@[8] == 'H',
        "ARROWRIGHT"@[9] == 'T',
        "RIGHT"@.len() == 5,
        "RIGHT"@[0] == 'R',
        "RIGHT"@[1] == 'I',
        "RIGHT"@[2] == 'G',
        "RIGHT"@[3] == 'H',
        "RIGHT"@[4] == 'T',
{
    reveal_strlit("ARROWDOWN");
    reveal_strlit("DOWN");
    reveal_strlit("ARROWLEFT");
    reveal_strlit("LEFT");
    reveal_strlit("ARROWRIGHT");
    reveal_strlit("RIGHT");
}

/// How some of the navigation names are spelled, character by character.
proof fn lemma_navigation_spellings_3()
    ensures
        "ARROWUP"@.len() == 7,
        "ARROWUP"@[0] == 'A',
        "ARROWUP"@[1] == 'R',
        "ARROWUP"@[2] == 'R',
        "ARROWUP"@[3] == 'O',
        "ARROWUP"@[4] == 'W',
        "ARROWUP"@[5] == 'U',
        "ARROWUP"@[6] == 'P',
        "UP"@.len() == 2,
        "UP"@[0] == 'U',
        "UP"@[1] == 'P',
{
    reveal_strlit("ARROWUP");
    reveal_strlit("UP");
}

/// How some of the keypad names are spelled, character by character.
proof fn lemma_keypad_spellings_1()
    ensures
        "NUMLOCK"@.len() == 7,
        "NUMLOCK"@[0] == 'N',
        "NUMLOCK"@[1] == 'U',
        "NUMLOCK"@[2] == 'M',
        "NUMLOCK"@[3] == 'L',
        "NUMLOCK"@[4] == 'O',
        "NUMLOCK"@[5] == 'C',
        "NUMLOCK"@[6] == 'K',
        "NUMPAD0"@.len() == 7,
        "NUMPAD0"@[0] == 'N',
        "NUMPAD0"@[1] == 'U',
        "NUMPAD0"@[2] == 'M',
        "NUMPAD0"@[3] == 'P',
        "NUMPAD0"@[4] == 'A',
        "NUMPAD0"@[5] == 'D',
        "NUMPAD0"@[6] == '0',
        "NUM0"@.len() == 4,
        "NUM0"@[0] == 'N',
        "NUM0"@[1] == 'U',
        "NUM0"@[2] == 'M',
        "NUM0"@[3] == '0',
        "NUMPAD1"@.len() == 7,
        "NUMPAD1"@[0] == 'N',
        "NUMPAD1"@[1] == 'U',
        "NUMPAD1"@[2] == 'M',
        "NUMPAD1"@[3] == 'P',
        "NUMPAD1"@[4] == 'A',
        "NUMPAD1"@[5] == 'D',
        "NUMPAD1"@[6] == '1',
        "NUM1"@.len() == 4,
        "NUM1"@[0] == 'N',
        "NUM1"@[1] == 'U',
        "NUM1"@[2] == 'M',
        "NUM1"@[3] == '1',
        "NUMPAD2"@.len() == 7,
        "NUMPAD2"@[0] == 'N',
        "NUMPAD2"@[1] == 'U',
        "NUMPAD2"@[2] == 'M',
        "NUMPAD2"@[3] == 'P',
        "NUMPAD2"@[4] == 'A',
        "NUMPAD2"@[5] == 'D',
        "NUMPAD2"@[6] == '2',
        "NUM2"@.len() == 4,
        "NUM2"@[0] == 'N',
        "NUM2"@[1] == 'U',
        "NUM2"@[2] == 'M',
        "NUM2"@[3] == '2',
{
    reveal_strlit("NUMLOCK");
    reveal_strlit("NUMPAD0");
    reveal_strlit("NUM0");
    reveal_strlit("NUMPAD1");
    reveal_strlit("NUM1");
    reveal_strlit("NUMPAD2");
    reveal_strlit("NUM2");
}

/// How some of the keypad names are spelled, character by character.
proof fn lemma_keypad_spellings_2()
    ensures
        "NUMPAD3"@.len() == 7,
        "NUMPAD3"@[0] == 'N',
        "NUMPAD3"@[1] == 'U',
        "NUMPAD3"@[2] == 'M',
        "NUMPAD3"@[3] == 'P',
        "NUMPAD3"@[4] == 'A',
        "NUMPAD3"@[5] == 'D',
        "NUMPAD3"@[6] == '3',
        "NUM3"@.len() == 4,
        "NUM3"@[0] == 'N',
        "NUM3"@[1] == 'U',
        "NUM3"@[2] == 'M',
        "NUM3"@[3] == '3',
        "NUMPAD4"@.len() == 7,
        "NUMPAD4"@[0] == 'N',
        "NUMPAD4"@[1] == 'U',
        "NUMPAD4"@[2] == 'M',
        "NUMPAD4"@[3] == 'P',
        "NUMPAD4"@[4] == 'A',
        "NUMPAD4"@[5] == 'D',
        "NUMPAD4"@[6] == '4',
        "NUM4"@.len() == 4,
        "NUM4"@[0] == 'N',
        "NUM4"@[1] == 'U',
        "NUM4"@[2] == 'M',
        "NUM4"@[3] == '4',
        "NUMPAD5"@.len() == 7,
        "NUMPAD5"@[0] == 'N',
        "NUMPAD5"@[1] == 'U',
        "NUMPAD5"@[2] == 'M',
        "NUMPAD5"@[3] == 'P',
        "NUMPAD5"@[4] == 'A',
        "NUMPAD5"@[5] == 'D',
        "NUMPAD5"@[6] == '5',
        "NUM5"@.len() == 4,
        "NUM5"@[0] == 'N',
        "NUM5"@[1] == 'U',
        "NUM5"@[2] == 'M',
        "NUM5"@[3] == '5',
        "NUMPAD6"@.len() == 7,
        "NUMPAD6"@[0] == 'N',
        "NUMPAD6"@[1] == 'U',
        "NUMPAD6"@[2] == 'M',
        "NUMPAD6"@[3] == 'P',
        "NUMPAD6"@[4] == 'A',
        "NUMPAD6"@[5] == 'D',
        "NUMPAD6"@[6] == '6',
{
    reveal_strlit("NUMPAD3");
    reveal_strlit("NUM3");
    reveal_strlit("NUMPAD4");
    reveal_strlit("NUM4");
    reveal_strlit("NUMPAD5");
    reveal_strlit("NUM5");
    reveal_strlit("NUMPAD6");
}

/// How some of the keypad names are spelled, character by character.
proof fn lemma_keypad_spellings_3()
    ensures
        "NUM6"@.len() == 4,
        "NUM6"@[0] == 'N',
        "NUM6"@[1] == 'U',
        "NUM6"@[2] == 'M',
        "NUM6"@[3] == '6',
        "NUMPAD7"@.len() == 7,
        "NUMPAD7"@[0] == 'N',
        "NUMPAD7"@[1] == 'U',
        "NUMPAD7"@[2] == 'M',
        "NUMPAD7"@[3] == 'P',
        "NUMPAD7"@[4] == 'A',
        "NUMPAD7"@[5] == 'D',
        "NUMPAD7"@[6] == '7',
        "NUM7"@.len() == 4,
        "NUM7"@[0] == 'N',
        "NUM7"@[1] == 'U',
        "NUM7"@[2] == 'M',
        "NUM7"@[3] == '7',
        "NUMPAD8"@.len() == 7,
        "NUMPAD8"@[0] == 'N',
        "NUMPAD8"@[1] == 'U',
        "NUMPAD8"@[2] == 'M',
        "NUMPAD8"@[3] == 'P',
        "NUMPAD8"@[4] == 'A',
        "NUMPAD8"@[5] == 'D',
        "NUMPAD8"@[6] == '8',
        "NUM8"@.len() == 4,
        "NUM8"@[0] == 'N',
        "NUM8"@[1] == 'U',
        "NUM8"@[2] == 'M',
        "NUM8"@[3] == '8',
        "NUMPAD9"@.len() == 7,
        "NUMPAD9"@[0] == 'N',
        "NUMPAD9"@[1] == 'U',
        "NUMPAD9"@[2] == 'M',
        "NUMPAD9"@[3] == 'P',
        "NUMPAD9"@[4] == 'A',
        "NUMPAD9"@[5] == 'D',
        "NUMPAD9"@[6] == '9',
        "NUM9"@.len() == 4,
        "NUM9"@[0] == 'N',
        "NUM9"@[1] == 'U',
        "NUM9"@[2] == 'M',
        "NUM9"@[3] == '9',
{
    reveal_strlit("NUM6");
    reveal_strlit("NUMPAD7");
    reveal_strlit("NUM7");
    reveal_strlit("NUMPAD8");
    reveal_strlit("NUM8");
    reveal_strlit("NUMPAD9");
    reveal_strlit("NUM9");
}

/// How some of the keypad names are spelled, character by character.
proof fn lemma_keypad_spellings_4()
    ensures
        "NUMPADADD"@.len() == 9,
        "NUMPADADD"@[0] == 'N',
        "NUMPADADD"@[1] == 'U',
        "NUMPADADD"@[2] == 'M',
        "NUMPADADD"@[3] == 'P',
        "NUMPADADD"@[4] == 'A',
        "NUMPADADD"@[5] == 'D',
        "NUMPADADD"@[6] == 'A',
        "NUMPADADD"@[7] == 'D',
        "NUMPADADD"@[8] == 'D',
        "NUMADD"@.len() == 6,
        "NUMADD"@[0] == 'N',
        "NUMADD"@[1] == 'U',
        "NUMADD"@[2] == 'M',
        "NUMADD"@[3] == 'A',
        "NUMADD"@[4] == 'D',
        "NUMADD"@[5] == 'D',
        "NUMPADPLUS"@.len() == 10,
        "NUMPADPLUS"@[0] == 'N',
        "NUMPADPLUS"@[1] == 'U',
        "NUMPADPLUS"@[2] == 'M',
        "NUMPADPLUS"@[3] == 'P',
        "NUMPADPLUS"@[4] == 'A',
        "NUMPADPLUS"@[5] == 'D',
        "NUMPADPLUS"@[6] == 'P',
        "NUMPADPLUS"@[7] == 'L',
        "NUMPADPLUS"@[8] == 'U',
        "NUMPADPLUS"@[9] == 'S',
        "NUMPLUS"@.len() == 7,
        "NUMPLUS"@[0] == 'N',
        "NUMPLUS"@[1] == 'U',
        "NUMPLUS"@[2] == 'M',
        "NUMPLUS"@[3] == 'P',
        "NUMPLUS"@[4] == 'L',
        "NUMPLUS"@[5] == 'U',
        "NUMPLUS"@[6] == 'S',
{
    reveal_strlit("NUMPADADD");
    reveal_strlit("NUMADD");
    reveal_strlit("NUMPADPLUS");
    reveal_strlit("NUMPLUS");
}

/// How some of the keypad names are spelled, character by character.
proof fn lemma_keypad_spellings_5()
    ensures
        "NUMPADDECIMAL"@.len() == 13,
        "NUMPADDECIMAL"@[0] == 'N',
        "NUMPADDECIMAL"@[1] == 'U',
        "NUMPADDECIMAL"@[2] == 'M',
        "NUMPADDECIMAL"@[3] == 'P',
        "NUMPADDECIMAL"@[4] == 'A',
        "NUMPADDECIMAL"@[5] == 'D',
        "NUMPADDECIMAL"@[6] == 'D',
        "NUMPADDECIMAL"@[7] == 'E',
        "NUMPADDECIMAL"@[8] == 'C',
        "NUMPADDECIMAL"@[9] == 'I',
        "NUMPADDECIMAL"@[10] == 'M',
        "NUMPADDECIMAL"@[11] == 'A',
        "NUMPADDECIMAL"@[12] == 'L',
        "NUMDECIMAL"@.len() == 10,
        "NUMDECIMAL"@[0] == 'N',
        "NUMDECIMAL"@[1] == 'U',
        "NUMDECIMAL"@[2] == 'M',
        "NUMDECIMAL"@[3] == 'D',
        "NUMDECIMAL"@[4] == 'E',
        "NUMDECIMAL"@[5] == 'C',
        "NUMDECIMAL"@[6] == 'I',
        "NUMDECIMAL"@[7] == 'M',
        "NUMDECIMAL"@[8] == 'A',
        "NUMDECIMAL"@[9] == 'L',
        "NUMPADDIVIDE"@.len() == 12,
        "NUMPADDIVIDE"@[0] == 'N',
        "NUMPADDIVIDE"@[1] == 'U',
        "NUMPADDIVIDE"@[2] == 'M',
        "NUMPADDIVIDE"@[3] == 'P',
        "NUMPADDIVIDE"@[4] == 'A',
        "NUMPADDIVIDE"@[5] == 'D',
        "NUMPADDIVIDE"@[6] == 'D',
        "NUMPADDIVIDE"@[7] == 'I',
        "NUMPADDIVIDE"@[8] == 'V',
        "NUMPADDIVIDE"@[9] == 'I',
        "NUMPADDIVIDE"@[10] == 'D',
        "NUMPADDIVIDE"@[11] == 'E',
        "NUMDIVIDE"@.len() == 9,
        "NUMDIVIDE"@[0] == 'N',
        "NUMDIVIDE"@[1] == 'U',
        "NUMDIVIDE"@[2] == 'M',
        "NUMDIVIDE"@[3] == 'D',
        "NUMDIVIDE"@[4] == 'I',
        "NUMDIVIDE"@[5] == 'V',
        "NUMDIVIDE"@[6] == 'I',
        "NUMDIVIDE"@[7] == 'D',
        "NUMDIVIDE"@[8] == 'E',
{
    reveal_strlit("NUMPADDECIMAL");
    reveal_strlit("NUMDECIMAL");
    reveal_strlit("NUMPADDIVIDE");
    reveal_strlit("NUMDIVIDE");
}

/// How some of the keypad names are spelled, character by character.
proof fn lemma_keypad_spellings_6()
    ensures
        "NUMPADENTER"@.len() == 11,
        "NUMPADENTER"@[0] == 'N',
        "NUMPADENTER"@[1] == 'U',
        "NUMPADENTER"@[2] == 'M',
        "NUMPADENTER"@[3] == 'P',
        "NUMPADENTER"@[4] == 'A',
        "NUMPADENTER"@[5] == 'D',
        "NUMPADENTER"@[6] == 'E',
        "NUMPADENTER"@[7] == 'N',
        "NUMPADENTER"@[8] == 'T',
        "NUMPADENTER"@[9] == 'E',
        "NUMPADENTER"@[10] == 'R',
        "NUMENTER"@.len() == 8,
        "NUMENTER"@[0] == 'N',
        "NUMENTER"@[1] == 'U',
        "NUMENTER"@[2] == 'M',
        "NUMENTER"@[3] == 'E',
        "NUMENTER"@[4] == 'N',
        "NUMENTER"@[5] == 'T',
        "NUMENTER"@[6] == 'E',
        "NUMENTER"@[7] == 'R',
        "NUMPADMULTIPLY"@.len() == 14,
        "NUMPADMULTIPLY"@[0] == 'N',
        "NUMPADMULTIPLY"@[1] == 'U',
        "NUMPADMULTIPLY"@[2] == 'M',
        "NUMPADMULTIPLY"@[3] == 'P',
        "NUMPADMULTIPLY"@[4] == 'A',
        "NUMPADMULTIPLY"@[5] == 'D',
        "NUMPADMULTIPLY"@[6] == 'M',
        "NUMPADMULTIPLY"@[7] == 'U',
        "NUMPADMULTIPLY"@[8] == 'L',
        "NUMPADMULTIPLY"@[9] == 'T',
        "NUMPADMULTIPLY"@[10] == 'I',
        "NUMPADMULTIPLY"@[11] == 'P',
        "NUMPADMULTIPLY"@[12] == 'L',
        "NUMPADMULTIPLY"@[13] == 'Y',
        "NUMMULTIPLY"@.len() == 11,
        "NUMMULTIPLY"@[0] == 'N',
        "NUMMULTIPLY"@[1] == 'U',
        "NUMMULTIPLY"@[2] == 'M',
        "NUMMULTIPLY"@[3] == 'M',
        "NUMMULTIPLY"@[4] == 'U',
        "NUMMULTIPLY"@[5] == 'L',
        "NUMMULTIPLY"@[6] == 'T',
        "NUMMULTIPLY"@[7] == 'I',
        "NUMMULTIPLY"@[8] == 'P',
        "NUMMULTIPLY"@[9] == 'L',
        "NUMMULTIPLY"@[10] == 'Y',
{
    reveal_strlit("NUMPADENTER");
    reveal_strlit("NUMENTER");
    reveal_strlit("NUMPADMULTIPLY");
    reveal_strlit("NUMMULTIPLY");
}

/// How some of the keypad names are spelled, character by character.
proof fn lemma_keypad_spellings_7()
    ensures
        "NUMPADSUBTRACT"@.len() == 14,
        "NUMPADSUBTRACT"@[0] == 'N',
        "NUMPADSUBTRACT"@[1] == 'U',
        "NUMPADSUBTRACT"@[2] == 'M',
        "NUMPADSUBTRACT"@[3] == 'P',
        "NUMPADSUBTRACT"@[4] == 'A',
        "NUMPADSUBTRACT"@[5] == 'D',
        "NUMPADSUBTRACT"@[6] == 'S',
        "NUMPADSUBTRACT"@[7] == 'U',
        "NUMPADSUBTRACT"@[8] == 'B',
        "NUMPADSUBTRACT"@[9] == 'T',
        "NUMPADSUBTRACT"@[10] == 'R',
        "NUMPADSUBTRACT"@[11] == 'A',
        "NUMPADSUBTRACT"@[12] == 'C',
        "NUMPADSUBTRACT"@[13] == 'T',
        "NUMSUBTRACT"@.len() == 11,
        "NUMSUBTRACT"@[0] == 'N',
        "NUMSUBTRACT"@[1] == 'U',
        "NUMSUBTRACT"@[2] == 'M',
        "NUMSUBTRACT"@[3] == 'S',
        "NUMSUBTRACT"@[4] == 'U',
        "NUMSUBTRACT"@[5] == 'B',
        "NUMSUBTRACT"@[6] == 'T',
        "NUMSUBTRACT"@[7] == 'R',
        "NUMSUBTRACT"@[8] == 'A',
        "NUMSUBTRACT"@[9] == 'C',
        "NUMSUBTRACT"@[10] == 'T',
{
    reveal_strlit("NUMPADSUBTRACT");
    reveal_strlit("NUMSUBTRACT");
}

/// How some of the function names are spelled, character by character.
proof fn lemma_function_spellings_1()
    ensures
        "ESCAPE"@.len() == 6,
        "ESCAPE"@[0] == 'E',
        "ESCAPE"@[1] == 'S',
        "ESCAPE"@[2] == 'C',
        "ESCAPE"@[3] == 'A',
        "ESCAPE"@[4] == 'P',
        "ESCAPE"@[5] == 'E',
        "ESC"@.len() == 3,
        "ESC"@[0] == 'E',
        "ESC"@[1] == 'S',
        "ESC"@[2] == 'C',
        "F1"@.len() == 2,
        "F1"@[0] == 'F',
        "F1"@[1] == '1',
        "F2"@.len() == 2,
        "F2"@[0] == 'F',
        "F2"@[1] == '2',
        "F3"@.len() == 2,
        "F3"@[0] == 'F',
        "F3"@[1] == '3',
        "F4"@.len() == 2,
        "F4"@[0] == 'F',
        "F4"@[1] == '4',
        "F5"@.len() == 2,
        "F5"@[0] == 'F',
        "F5"@[1] == '5',
        "F6"@.len() == 2,
        "F6"@[0] == 'F',
        "F6"@[1] == '6',
        "F7"@.len() == 2,
        "F7"@[0] == 'F',
        "F7"@[1] == '7',
        "F8"@.len() == 2,
        "F8"@[0] == 'F',
        "F8"@[1] == '8',
        "F9"@.len() == 2,
        "F9"@[0] == 'F',
        "F9"@[1] == '9',
        "F10"@.len() == 3,
        "F10"@[0] == 'F',
        "F10"@[1] == '1',
        "F10"@[2] == '0',
        "F11"@.len() == 3,
        "F11"@[0] == 'F',
        "F11"@[1] == '1',
        "F11"@[2] == '1',
{
    reveal_strlit("ESCAPE");
    reveal_strlit("ESC");
    reveal_strlit("F1");
    reveal_strlit("F2");
    reveal_strlit("F3");
    reveal_strlit("F4");
    reveal_strlit("F5");
    reveal_strlit("F6");
    reveal_strlit("F7");
    reveal_strlit("F8");
    reveal_strlit("F9");
    reveal_strlit("F10");
    reveal_strlit("F11");
}

/// How some of the function names are spelled, character by character.
proof fn lemma_function_spellings_2()
    ensures
        "F12"@.len() == 3,
        "F12"@[0] == 'F',
        "F12"@[1] == '1',
        "F12"@[2] == '2',
{
    reveal_strlit("F12");
}

/// How some of the modifier names are spelled, character by character.
proof fn lemma_modifier_spellings_1()
    ensures
        "OPTION"@.len() == 6,
        "OPTION"@[0] == 'O',
        "OPTION"@[1] == 'P',
        "OPTION"@[2] == 'T',
        "OPTION"@[3] == 'I',
        "OPTION"@[4] == 'O',
        "OPTION"@[5] == 'N',
        "ALT"@.len() == 3,
        "ALT"@[0] == 'A',
        "ALT"@[1] == 'L',
        "ALT"@[2] == 'T',
        "CONTROL"@.len() == 7,
        "CONTROL"@[0] == 'C',
        "CONTROL"@[1] == 'O',
        "CONTROL"@[2] == 'N',
        "CONTROL"@[3] == 'T',
        "CONTROL"@[4] == 'R',
        "CONTROL"@[5] == 'O',
        "CONTROL"@[6] == 'L',
        "CTRL"@.len() == 4,
        "CTRL"@[0] == 'C',
        "CTRL"@[1] == 'T',
        "CTRL"@[2] == 'R',
        "CTRL"@[3] == 'L',
        "COMMAND"@.len() == 7,
        "COMMAND"@[0] == 'C',
        "COMMAND"@[1] == 'O',
        "COMMAND"@[2] == 'M',
        "COMMAND"@[3] == 'M',
        "COMMAND"@[4] == 'A',
        "COMMAND"@[5] == 'N',
        "COMMAND"@[6] == 'D',
        "CMD"@.len() == 3,
        "CMD"@[0] == 'C',
        "CMD"@[1] == 'M',
        "CMD"@[2] == 'D',
        "SUPER"@.len() == 5,
        "SUPER"@[0] == 'S',
        "SUPER"@[1] == 'U',
        "SUPER"@[2] == 'P',
        "SUPER"@[3] == 'E',
        "SUPER"@[4] == 'R',
        "SHIFT"@.len() == 5,
        "SHIFT"@[0] == 'S',
        "SHIFT"@[1] == 'H',
        "SHIFT"@[2] == 'I',
        "SHIFT"@[3] == 'F',
        "SHIFT"@[4] == 'T',
{
    reveal_strlit("OPTION");
    reveal_strlit("ALT");
    reveal_strlit("CONTROL");
    reveal_strlit("CTRL");
    reveal_strlit("COMMAND");
    reveal_strlit("CMD");
    reveal_strlit("SUPER");
    reveal_strlit("SHIFT");
}

/// How some of the modifier names are spelled, character by character.
proof fn lemma_modifier_spellings_2()
    ensures
        "COMMANDORCONTROL"@.len() == 16,
        "COMMANDORCONTROL"@[0] == 'C',
        "COMMANDORCONTROL"@[1] == 'O',
        "COMMANDORCONTROL"@[2] == 'M',
        "COMMANDORCONTROL"@[3] == 'M',
        "COMMANDORCONTROL"@[4] == 'A',
        "COMMANDORCONTROL"@[5] == 'N',
        "COMMANDORCONTROL"@[6] == 'D',
        "COMMANDORCONTROL"@[7] == 'O',
        "COMMANDORCONTROL"@[8] == 'R',
        "COMMANDORCONTROL"@[9] == 'C',
        "COMMANDORCONTROL"@[10] == 'O',
        "COMMANDORCONTROL"@[11] == 'N',
        "COMMANDORCONTROL"@[12] == 'T',
        "COMMANDORCONTROL"@[13] == 'R',
        "COMMANDORCONTROL"@[14] == 'O',
        "COMMANDORCONTROL"@[15] == 'L',
        "COMMANDORCTRL"@.len() == 13,
        "COMMANDORCTRL"@[0] == 'C',
        "COMMANDORCTRL"@[1] == 'O',
        "COMMANDORCTRL"@[2] == 'M',
        "COMMANDORCTRL"@[3] == 'M',
        "COMMANDORCTRL"@[4] == 'A',
        "COMMANDORCTRL"@[5] == 'N',
        "COMMANDORCTRL"@[6] == 'D',
        "COMMANDORCTRL"@[7] == 'O',
        "COMMANDORCTRL"@[8] == 'R',
        "COMMANDORCTRL"@[9] == 'C',
        "COMMANDORCTRL"@[10] == 'T',
        "COMMANDORCTRL"@[11] == 'R',
        "COMMANDORCTRL"@[12] == 'L',
        "CMDORCTRL"@.len() == 9,
        "CMDORCTRL"@[0] == 'C',
        "CMDORCTRL"@[1] == 'M',
        "CMDORCTRL"@[2] == 'D',
        "CMDORCTRL"@[3] == 'O',
        "CMDORCTRL"@[4] == 'R',
        "CMDORCTRL"@[5] == 'C',
        "CMDORCTRL"@[6] == 'T',
        "CMDORCTRL"@[7] == 'R',
        "CMDORCTRL"@[8] == 'L',
{
    reveal_strlit("COMMANDORCONTROL");
    reveal_strlit("COMMANDORCTRL");
    reveal_strlit("CMDORCTRL");
}

/// How some of the modifier names are spelled, character by character.
proof fn lemma_modifier_spellings_3()
    ensures
        "CMDORCONTROL"@.len() == 12,
        "CMDORCONTROL"@[0] == 'C',
        "CMDORCONTROL"@[1] == 'M',
        "CMDORCONTROL"@[2] == 'D',
        "CMDORCONTROL"@[3] == 'O',
        "CMDORCONTROL"@[4] == 'R',
        "CMDORCONTROL"@[5] == 'C',
        "CMDORCONTROL"@[6] == 'O',
        "CMDORCONTROL"@[7] == 'N',
        "CMDORCONTROL"@[8] == 'T',
        "CMDORCONTROL"@[9] == 'R',
        "CMDORCONTROL"@[10] == 'O',
        "CMDORCONTROL"@[11] == 'L',
{
    reveal_strlit("CMDORCONTROL");
}

/// The names of the digit-row, bracket and symbol keys, in upper case.
pub proof fn lemma_digit_row_names()
    ensures
        key_for_name("BACKQUOTE"@) == Some(Key::BackQuote),
        key_for_name("`"@) == Some(Key::BackQuote),
        key_for_name("BACKSLASH"@) == Some(Key::BackSlash),
        key_for_name("\\"@) == Some(Key::BackSlash),
        key_for_name("BRACKETLEFT"@) == Some(Key::LeftBracket),
        key_for_name("["@) == Some(Key::LeftBracket),
        key_for_name("BRACKETRIGHT"@) == Some(Key::RightBracket),
        key_for_name("]"@) == Some(Key::RightBracket),
        key_for_name("PAUSE"@) == Some(Key::Pause),
        key_for_name("PAUSEBREAK"@) == Some(Key::Pause),
        key_for_name("COMMA"@) == Some(Key::Comma),
        key_for_name(","@) == Some(Key::Comma),
        key_for_name("DIGIT0"@) == Some(Key::Num0),
        key_for_name("0"@) == Some(Key::Num0),
        key_for_name("DIGIT1"@) == Some(Key::Num1),
        key_for_name("1"@) == Some(Key::Num1),
        key_for_name("DIGIT2"@) == Some(Key::Num2),
        key_for_name("2"@) == Some(Key::Num2),
        key_for_name("DIGIT3"@) == Some(Key::Num3),
        key_for_name("3"@) == Some(Key::Num3),
        key_for_name("DIGIT4"@) == Some(Key::Num4),
        key_for_name("4"@) == Some(Key::Num4),
        key_for_name("DIGIT5"@) == Some(Key::Num5),
        key_for_name("5"@) == Some(Key::Num5),
        key_for_name("DIGIT6"@) == Some(Key::Num6),
        key_for_name("6"@) == Some(Key::Num6),
        key_for_name("DIGIT7"@) == Some(Key::Num7),
        key_for_name("7"@) == Some(Key::Num7),
        key_for_name("DIGIT8"@) == Some(Key::Num8),
        key_for_name("8"@) == Some(Key::Num8),
        key_for_name("DIGIT9"@) == Some(Key::Num9),
        key_for_name("9"@) == Some(Key::Num9),
        key_for_name("EQUAL"@) == Some(Key::Equal),
        key_for_name("="@) == Some(Key::Equal),
{
    lemma_digit_row_spellings_1();
    lemma_digit_row_spellings_2();
    lemma_digit_row_spellings_3();
    lemma_digit_row_spellings_4();
    lemma_letter_spellings_1();
    lemma_letter_spellings_2();
    lemma_letter_spellings_3();
    lemma_letter_spellings_4();
    lemma_editing_spellings_1();
    lemma_editing_spellings_2();
    lemma_editing_spellings_3();
    lemma_navigation_spellings_1();
    lemma_navigation_spellings_2();
    lemma_navigation_spellings_3();
    lemma_keypad_spellings_1();
    lemma_keypad_spellings_2();
    lemma_keypad_spellings_3();
    lemma_keypad_spellings_4();
    lemma_keypad_spellings_5();
    lemma_keypad_spellings_6();
    lemma_keypad_spellings_7();
    lemma_function_spellings_1();
    lemma_function_spellings_2();
    lemma_modifier_spellings_1();
    lemma_modifier_spellings_2();
    lemma_modifier_spellings_3();
}

/// The names of the letter keys: each letter, alone or after "KEY", is the key of that letter, in upper case.
pub proof fn lemma_letter_names()
    ensures
        key_for_name("KEYA"@) == Some(Key::KeyA),
        key_for_name("A"@) == Some(Key::KeyA),
        key_for_name("KEYB"@) == Some(Key::KeyB),
        key_for_name("B"@) == Some(Key::KeyB),
        key_for_name("KEYC"@) == Some(Key::KeyC),
        key_for_name("C"@) == Some(Key::KeyC),
        key_for_name("KEYD"@) == Some(Key::KeyD),
        key_for_name("D"@) == Some(Key::KeyD),
        key_for_name("KEYE"@) == Some(Key::KeyE),
        key_for_name("E"@) == Some(Key::KeyE),
        key_for_name("KEYF"@) == Some(Key::KeyF),
        key_for_name("F"@) == Some(Key::KeyF),
        key_for_name("KEYG"@) == Some(Key::KeyG),
        key_for_name("G"@) == Some(Key::KeyG),
        key_for_name("KEYH"@) == Some(Key::KeyH),
        key_for_name("H"@) == Some(Key::KeyH),
        key_for_name("KEYI"@) == Some(Key::KeyI),
        key_for_name("I"@) == Some(Key::KeyI),
        key_for_name("KEYJ"@) == Some(Key::KeyJ),
        key_for_name("J"@) == Some(Key::KeyJ),
        key_for_name("KEYK"@) == Some(Key::KeyK),
        key_for_name("K"@) == Some(Key::KeyK),
        key_for_name("KEYL"@) == Some(Key::KeyL),
        key_for_name("L"@) == Some(Key::KeyL),
        key_for_name("KEYM"@) == Some(Key::KeyM),
        key_for_name("M"@) == Some(Key::KeyM),
        key_for_name("KEYN"@) == Some(Key::KeyN),
        key_for_name("N"@) == Some(Key::KeyN),
        key_for_name("KEYO"@) == Some(Key::KeyO),
        key_for_name("O"@) == Some(Key::KeyO),
        key_for_name("KEYP"@) == Some(Key::KeyP),
        key_for_name("P"@) == Some(Key::KeyP),
        key_for_name("KEYQ"@) == Some(Key::KeyQ),
        key_for_name("Q"@) == Some(Key::KeyQ),
        key_for_name("KEYR"@) == Some(Key::KeyR),
        key_for_name("R"@) == Some(Key::KeyR),
        key_for_name("KEYS"@) == Some(Key::KeyS),
        key_for_name("S"@) == Some(Key::KeyS),
        key_for_name("KEYT"@) == Some(Key::KeyT),
        key_for_name("T"@) == Some(Key::KeyT),
        key_for_name("KEYU"@) == Some(Key::KeyU),
        key_for_name("U"@) == Some(Key::KeyU),
        key_for_name("KEYV"@) == Some(Key::KeyV),
        key_for_name("V"@) == Some(Key::KeyV),
        key_for_name("KEYW"@) == Some(Key::KeyW),
        key_for_name("W"@) == Some(Key::KeyW),
        key_for_name("KEYX"@) == Some(Key::KeyX),
        key_for_name("X"@) == Some(Key::KeyX),
        key_for_name("KEYY"@) == Some(Key::KeyY),
        key_for_name("Y"@) == Some(Key::KeyY),
        key_for_name("KEYZ"@) == Some(Key::KeyZ),
        key_for_name("Z"@) == Some(Key::KeyZ),
{
    lemma_digit_row_spellings_1();
    lemma_digit_row_spellings_2();
    lemma_digit_row_spellings_3();
    lemma_digit_row_spellings_4();
    lemma_letter_spellings_1();
    lemma_letter_spellings_2();
    lemma_letter_spellings_3();
    lemma_letter_spellings_4();
    lemma_editing_spellings_1();
    lemma_editing_spellings_2();
    lemma_editing_spellings_3();
    lemma_navigation_spellings_1();
    lemma_navigation_spellings_2();
    lemma_navigation_spellings_3();
    lemma_keypad_spellings_1();
    lemma_keypad_spellings_2();
    lemma_keypad_spellings_3();
    lemma_keypad_spellings_4();
    lemma_keypad_spellings_5();
    lemma_keypad_spellings_6();
    lemma_keypad_spellings_7();
    lemma_function_spellings_1();
    lemma_function_spellings_2();
    lemma_modifier_spellings_1();
    lemma_modifier_spellings_2();
    lemma_modifier_spellings_3();
}

/// The names of the punctuation and editing keys, in upper case.
pub proof fn lemma_editing_names()
    ensures
        key_for_name("MINUS"@) == Some(Key::Minus),
        key_for_name("-"@) == Some(Key::Minus),
        key_for_name("PERIOD"@) == Some(Key::Dot),
        key_for_name("."@) == Some(Key::Dot),
        key_for_name("QUOTE"@) == Some(Key::Quote),
        key_for_name("'"@) == Some(Key::Quote),
        key_for_name("SEMICOLON"@) == Some(Key::SemiColon),
        key_for_name(";"@) == Some(Key::SemiColon),
        key_for_name("SLASH"@) == Some(Key::Slash),
        key_for_name("/"@) == Some(Key::Slash),
        key_for_name("BACKSPACE"@) == Some(Key::Backspace),
        key_for_name("CAPSLOCK"@) == Some(Key::CapsLock),
        key_for_name("ENTER"@) == Some(Key::Return),
        key_for_name("SPACE"@) == Some(Key::Space),
        key_for_name("TAB"@) == Some(Key::Tab),
        key_for_name("DELETE"@) == Some(Key::Delete),
        key_for_name("END"@) == Some(Key::End),
        key_for_name("HOME"@) == Some(Key::Home),
        key_for_name("INSERT"@) == Some(Key::Insert),
{
    lemma_digit_row_spellings_1();
    lemma_digit_row_spellings_2();
    lemma_digit_row_spellings_3();
    lemma_digit_row_spellings_4();
    lemma_letter_spellings_1();
    lemma_letter_spellings_2();
    lemma_letter_spellings_3();
    lemma_letter_spellings_4();
    lemma_editing_spellings_1();
    lemma_editing_spellings_2();
    lemma_editing_spellings_3();
    lemma_navigation_spellings_1();
    lemma_navigation_spellings_2();
    lemma_navigation_spellings_3();
    lemma_keypad_spellings_1();
    lemma_keypad_spellings_2();
    lemma_keypad_spellings_3();
    lemma_keypad_spellings_4();
    lemma_keypad_spellings_5();
    lemma_keypad_spellings_6();
    lemma_keypad_spellings_7();
    lemma_function_spellings_1();
    lemma_function_spellings_2();
    lemma_modifier_spellings_1();
    lemma_modifier_spellings_2();
    lemma_modifier_spellings_3();
}

/// The names of the navigation keys, in upper case.
pub proof fn lemma_navigation_names()
    ensures
        key_for_name("PAGEDOWN"@) == Some(Key::PageDown),
        key_for_name("PAGEUP"@) == Some(Key::PageUp),
        key_for_name("PRINTSCREEN"@) == Some(Key::PrintScreen),
        key_for_name("SCROLLLOCK"@) == Some(Key::ScrollLock),
        key_for_name("ARROWDOWN"@) == Some(Key::DownArrow),
        key_for_name("DOWN"@) == Some(Key::DownArrow),
        key_for_name("ARROWLEFT"@) == Some(Key::LeftArrow),
        key_for_name("LEFT"@) == Some(Key::LeftArrow),
        key_for_name("ARROWRIGHT"@) == Some(Key::RightArrow),
        key_for_name("RIGHT"@) == Some(Key::RightArrow),
        key_for_name("ARROWUP"@) == Some(Key::UpArrow),
        key_for_name("UP"@) == Some(Key::UpArrow),
{
    lemma_digit_row_spellings_1();
    lemma_digit_row_spellings_2();
    lemma_digit_row_spellings_3();
    lemma_digit_row_spellings_4();
    lemma_letter_spellings_1();
    lemma_letter_spellings_2();
    lemma_letter_spellings_3();
    lemma_letter_spellings_4();
    lemma_editing_spellings_1();
    lemma_editing_spellings_2();
    lemma_editing_spellings_3();
    lemma_navigation_spellings_1();
    lemma_navigation_spellings_2();
    lemma_navigation_spellings_3();
    lemma_keypad_spellings_1();
    lemma_keypad_spellings_2();
    lemma_keypad_spellings_3();
    lemma_keypad_spellings_4();
    lemma_keypad_spellings_5();
    lemma_keypad_spellings_6();
    lemma_keypad_spellings_7();
    lemma_function_spellings_1();
    lemma_function_spellings_2();
    lemma_modifier_spellings_1();
    lemma_modifier_spellings_2();
    lemma_modifier_spellings_3();
}

/// The names of the numeric keypad keys, in upper case.
pub proof fn lemma_keypad_names()
    ensures
        key_for_name("NUMLOCK"@) == Some(Key::NumLock),
        key_for_name("NUMPAD0"@) == Some(Key::Kp0),
        key_for_name("NUM0"@) == Some(Key::Kp0),
        key_for_name("NUMPAD1"@) == Some(Key::Kp1),
        key_for_name("NUM1"@) == Some(Key::Kp1),
        key_for_name("NUMPAD2"@) == Some(Key::Kp2),
        key_for_name("NUM2"@) == Some(Key::Kp2),
        key_for_name("NUMPAD3"@) == Some(Key::Kp3),
        key_for_name("NUM3"@) == Some(Key::Kp3),
        key_for_name("NUMPAD4"@) == Some(Key::Kp4),
        key_for_name("NUM4"@) == Some(Key::Kp4),
        key_for_name("NUMPAD5"@) == Some(Key::Kp5),
        key_for_name("NUM5"@) == Some(Key::Kp5),
        key_for_name("NUMPAD6"@) == Some(Key::Kp6),
        key_for_name("NUM6"@) == Some(Key::Kp6),
        key_for_name("NUMPAD7"@) == Some(Key::Kp7),
        key_for_name("NUM7"@) == Some(Key::Kp7),
        key_for_name("NUMPAD8"@) == Some(Key::Kp8),
        key_for_name("NUM8"@) == Some(Key::Kp8),
        key_for_name("NUMPAD9"@) == Some(Key::Kp9),
        key_for_name("NUM9"@) == Some(Key::Kp9),
        key_for_name("NUMPADADD"@) == Some(Key::KpPlus),
        key_for_name("NUMADD"@) == Some(Key::KpPlus),
        key_for_name("NUMPADPLUS"@) == Some(Key::KpPlus),
        key_for_name("NUMPLUS"@) == Some(Key::KpPlus),
        key_for_name("NUMPADDECIMAL"@) == Some(Key::KpDelete),
        key_for_name("NUMDECIMAL"@) == Some(Key::KpDelete),
        key_for_name("NUMPADDIVIDE"@) == Some(Key::KpDivide),
        key_for_name("NUMDIVIDE"@) == Some(Key::KpDivide),
        key_for_name("NUMPADENTER"@) == Some(Key::KpReturn),
        key_for_name("NUMENTER"@) == Some(Key::KpReturn),
        key_for_name("NUMPADMULTIPLY"@) == Some(Key::KpMultiply),
        key_for_name("NUMMULTIPLY"@) == Some(Key::KpMultiply),
        key_for_name("NUMPADSUBTRACT"@) == Some(Key::KpMinus),
        key_for_name("NUMSUBTRACT"@) == Some(Key::KpMinus),
{
    lemma_digit_row_spellings_1();
    lemma_digit_row_spellings_2();
    lemma_digit_row_spellings_3();
    lemma_digit_row_spellings_4();
    lemma_letter_spellings_1();
    lemma_letter_spellings_2();
    lemma_letter_spellings_3();
    lemma_letter_spellings_4();
    lemma_editing_spellings_1();
    lemma_editing_spellings_2();
    lemma_editing_spellings_3();
    lemma_navigation_spellings_1();
    lemma_navigation_spellings_2();
    lemma_navigation_spellings_3();
    lemma_keypad_spellings_1();
    lemma_keypad_spellings_2();
    lemma_keypad_spellings_3();
    lemma_keypad_spellings_4();
    lemma_keypad_spellings_5();
    lemma_keypad_spellings_6();
    lemma_keypad_spellings_7();
    lemma_function_spellings_1();
    lemma_function_spellings_2();
    lemma_modifier_spellings_1();
    lemma_modifier_spellings_2();
    lemma_modifier_spellings_3();
}

/// The names of Escape and the function keys F1 to F12, in upper case.
pub proof fn lemma_function_names()
    ensures
        key_for_name("ESCAPE"@) == Some(Key::Escape),
        key_for_name("ESC"@) == Some(Key::Escape),
        key_for_name("F1"@) == Some(Key::F1),
        key_for_name("F2"@) == Some(Key::F2),
        key_for_name("F3"@) == Some(Key::F3),
        key_for_name("F4"@) == Some(Key::F4),
        key_for_name("F5"@) == Some(Key::F5),
        key_for_name("F6"@) == Some(Key::F6),
        key_for_name("F7"@) == Some(Key::F7),
        key_for_name("F8"@) == Some(Key::F8),
        key_for_name("F9"@) == Some(Key::F9),
        key_for_name("F10"@) == Some(Key::F10),
        key_for_name("F11"@) == Some(Key::F11),
        key_for_name("F12"@) == Some(Key::F12),
{
    lemma_digit_row_spellings_1();
    lemma_digit_row_spellings_2();
    lemma_digit_row_spellings_3();
    lemma_digit_row_spellings_4();
    lemma_letter_spellings_1();
    lemma_letter_spellings_2();
    lemma_letter_spellings_3();
    lemma_letter_spellings_4();
    lemma_editing_spellings_1();
    lemma_editing_spellings_2();
    lemma_editing_spellings_3();
    lemma_navigation_spellings_1();
    lemma_navigation_spellings_2();
    lemma_navigation_spellings_3();
    lemma_keypad_spellings_1();
    lemma_keypad_spellings_2();
    lemma_keypad_spellings_3();
    lemma_keypad_spellings_4();
    lemma_keypad_spellings_5();
    lemma_keypad_spellings_6();
    lemma_keypad_spellings_7();
    lemma_function_spellings_1();
    lemma_function_spellings_2();
    lemma_modifier_spellings_1();
    lemma_modifier_spellings_2();
    lemma_modifier_spellings_3();
}

} // verus!
