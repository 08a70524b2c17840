//! Core of an interval-driven auto-clicker: the clicking engine's run state
//! and lifecycle, the hotkey listener's event normalisation, the toggle
//! debounce, and the scroll-to-interval adjustment policy.
//!
//! Everything here is plain state-machine logic over integers, booleans and
//! strings; the surrounding application performs the input injection, the
//! OS listeners and the settings persistence, and feeds events and clock
//! readings into these functions.

use vstd::prelude::*;

pub mod app;
pub mod button;
pub mod clicking;
pub mod debounce;
pub mod hotkeys;
pub mod policy;
pub mod settings;
pub mod text;
pub mod theme;

verus! {

/// Smallest click interval, in milliseconds, that the engine accepts.
pub const MIN_INTERVAL_MS: u64 = 1;

/// Largest click interval, in milliseconds, that the engine accepts.
pub const MAX_INTERVAL_MS: u64 = 10000;

/// Interval used when no valid value is available, in milliseconds.
pub const DEFAULT_INTERVAL_MS: u64 = 100;

/// A value brought back into the supported interval range.
pub open spec fn clamped_interval(v: int) -> int {
    if v < MIN_INTERVAL_MS as int {
        MIN_INTERVAL_MS as int
    } else if v > MAX_INTERVAL_MS as int {
        MAX_INTERVAL_MS as int
    } else {
        v
    }
}

/// Brings an interval back into the supported range.
pub fn clamp_interval(v: u64) -> (r: u64)
    ensures
        r == clamped_interval(v as int),
{
    if v < MIN_INTERVAL_MS {
        MIN_INTERVAL_MS
    } else if v > MAX_INTERVAL_MS {
        MAX_INTERVAL_MS
    } else {
        v
    }
}

} // verus!
