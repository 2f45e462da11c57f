//! Verified core of a push-to-talk style microphone swapper: hotkey parsing,
//! the global-key listener state machine, display-server detection and the
//! input-source swapping protocol.
pub mod key;
pub mod text;
pub mod keyparse;
pub mod listener;
pub mod display;
pub mod swapper;
pub mod sources;
pub mod settings;
