//! The user-visible settings. Reading and writing them to disk is the
//! surrounding application's job; the core only defines the record, its
//! defaults, and how a stored interval is brought back into range.

use vstd::prelude::*;
use crate::{clamped_interval, DEFAULT_INTERVAL_MS, MAX_INTERVAL_MS, MIN_INTERVAL_MS};

verus! {

/// Everything the application persists between runs.
#[derive(Clone, Debug)]
pub struct Settings {
    pub interval_ms: u64,
    pub mouse_button: String,
    pub enable_dynamic_adjustment: bool,
    pub toggle_hotkey_ctrl: bool,
    pub toggle_hotkey_alt: bool,
    pub toggle_hotkey_shift: bool,
    pub toggle_hotkey_key: Option<String>,
    pub interval_hotkey_ctrl: bool,
    pub interval_hotkey_alt: bool,
    pub interval_hotkey_shift: bool,
    pub interval_hotkey_key: Option<String>,
}

impl Settings {
    /// The stored interval brought back into the supported range, ready
    /// to hand to the clicking engine.
    pub fn clamped_interval_ms(&self) -> (r: u64)
        ensures
            r == clamped_interval(self.interval_ms as int),
            MIN_INTERVAL_MS <= r <= MAX_INTERVAL_MS,
    {
        crate::clamp_interval(self.interval_ms)
    }
}

impl Default for Settings {
    /// The settings used when nothing was persisted yet: click the left
    /// button every hundred milliseconds, adjust dynamically, and toggle
    /// with control, alt and the toggle key.
    fn default() -> (s: Settings)
        ensures
            s.interval_ms == DEFAULT_INTERVAL_MS,
            s.mouse_button@ == "Left"@,
            s.enable_dynamic_adjustment,
            s.toggle_hotkey_ctrl,
            s.toggle_hotkey_alt,
            !s.toggle_hotkey_shift,
            s.toggle_hotkey_key matches Some(k) && k@ == "F6"@,
            s.interval_hotkey_ctrl,
            s.interval_hotkey_alt,
            s.interval_hotkey_shift,
            s.interval_hotkey_key is None,
    {
        Settings {
            interval_ms: DEFAULT_INTERVAL_MS,
            mouse_button: "Left".to_owned(),
            enable_dynamic_adjustment: true,
            toggle_hotkey_ctrl: true,
            toggle_hotkey_alt: true,
            toggle_hotkey_shift: false,
            toggle_hotkey_key: Some("F6".to_owned()),
            interval_hotkey_ctrl: true,
            interval_hotkey_alt: true,
            interval_hotkey_shift: true,
            interval_hotkey_key: None,
        }
    }
}

} // verus!
