use vstd::prelude::*;

use crate::text::{lowercase, to_lowercase};

verus! {

/// The kind of graphical session the program runs in.
#[derive(Clone, Copy, Debug, PartialEq, Eq, Structural)]
pub enum DisplayServer {
    X11,
    Wayland,
    Unknown,
}

/// The display server that a lower-cased session type names.
pub open spec fn server_for_lowercase(name: Seq<char>) -> DisplayServer {
    if name == "wayland"@ {
        DisplayServer::Wayland
    } else if name == "x11"@ {
        DisplayServer::X11
    } else {
        DisplayServer::Unknown
    }
}

/// The display server that a session type (the value of
/// `XDG_SESSION_TYPE`, if set) names, ignoring case.
pub open spec fn server_for_session(session: Option<Seq<char>>) -> DisplayServer {
    match session {
        Some(s) => server_for_lowercase(lowercase(s)),
        None => DisplayServer::Unknown,
    }
}

/// The display server that the lower-case session type `name` names.
pub fn server_from_lowercase(name: &String) -> (d: DisplayServer)
    ensures
        d == server_for_lowercase(name@),
{
    let wayland = String::from_str("wayland");
    let x11 = String::from_str("x11");
    if *name == wayland {
        DisplayServer::Wayland
    } else if *name == x11 {
        DisplayServer::X11
    } else {
        DisplayServer::Unknown
    }
}

/// Tells the display server from the session type, `None` when the session
/// type is not set (or not readable as text).
pub fn detect_server(session: Option<&str>) -> (d: DisplayServer)
    ensures
        d == server_for_session(
            match session {
                Some(s) => Some(s@),
                None => None,
            },
        ),
{
    match session {
        Some(s) => {
            let lower = to_lowercase(s);
            server_from_lowercase(&lower)
        },
        None => DisplayServer::Unknown,
    }
}

/// How a global hotkey gets registered.
#[derive(Clone, Copy, Debug, PartialEq, Eq, Structural)]
pub enum HotkeyBackend {
    /// Listen to every key event and follow the held keys.
    KeyListener,
    /// Hand the shortcut to the desktop's global-shortcut service.
    ShortcutPlugin,
}

/// The backend for registering a hotkey: the key listener on Linux under
/// Wayland, the global-shortcut service everywhere else.
pub fn hotkey_backend(on_linux: bool, server: DisplayServer) -> (b: HotkeyBackend)
    ensures
        b == (if on_linux && server == DisplayServer::Wayland {
            HotkeyBackend::KeyListener
        } else {
            HotkeyBackend::ShortcutPlugin
        }),
{
    if on_linux && server == DisplayServer::Wayland {
        HotkeyBackend::KeyListener
    } else {
        HotkeyBackend::ShortcutPlugin
    }
}

/// The session types "wayland" and "x11" name Wayland and X11; the empty
/// session type and an unset one name no known server.
pub proof fn lemma_session_names()
    ensures
        server_for_lowercase("wayland"@) == DisplayServer::Wayland,
        server_for_lowercase("x11"@) == DisplayServer::X11,
        server_for_lowercase(Seq::<char>::empty()) == DisplayServer::Unknown,
        server_for_session(None) == DisplayServer::Unknown,
{
    reveal_strlit("wayland");
    reveal_strlit("x11");
    assert("x11"@[0] != "wayland"@[0]);
    assert(Seq::<char>::empty().len() != "wayland"@.len());
    assert(Seq::<char>::empty().len() != "x11"@.len());
}

} // verus!
