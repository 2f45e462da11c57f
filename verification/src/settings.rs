use vstd::prelude::*;

verus! {

/// The file the settings are stored in.
pub const STORE_PATH: &'static str = "config.json";

/// The setting that holds the hotkey.
pub const STORE_HOTKEY: &'static str = "hotkey";

/// The setting that holds the input to swap to.
pub const STORE_SWAPTO: &'static str = "swapTo";

/// The input to swap to at start-up, from the stored setting: the stored
/// text, or nothing (the empty name) when no text is stored.
pub fn swap_target_from_store(stored: Option<String>) -> (target: String)
    ensures
        target@ == match stored {
            Some(s) => s@,
            None => Seq::<char>::empty(),
        },
{
    match stored {
        Some(s) => s,
        None => String::new(),
    }
}

} // verus!
