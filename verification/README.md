# funnymic

Holds a hotkey to swap the default microphone to a chosen one, and swaps back
when the hotkey is released.

- `src/` is the verified library (Verus): key names and key combinations
  (`keyparse`), the held-keys listener (`listener`), the swapping protocol for
  PulseAudio, Windows and the command-line tool (`swapper`), input listings
  (`sources`), display-server detection (`display`) and stored settings
  (`settings`).
- `app/` drives the library: the command-line tool (`main.rs`), the PulseAudio
  and Windows calls, and the Tauri desktop app.
- `tests/` runs the library on concrete values.
