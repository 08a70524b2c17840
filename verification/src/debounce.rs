//! The toggle debounce: the OS-wide and the foreground listener may both
//! report the same physical toggle press, so the consumer collapses
//! signals that arrive within one debounce window into a single
//! transition.

use vstd::prelude::*;

verus! {

/// Toggle signals closer together than this many milliseconds collapse to
/// one transition.
pub const TOGGLE_DEBOUNCE_MS: u64 = 300;

/// The timestamp of the last accepted toggle, against which the next
/// signal is measured.
pub struct ToggleDebounce {
    /// When the last accepted toggle arrived, in milliseconds of a
    /// monotonic clock.
    pub last_toggle_ms: u64,
}

impl ToggleDebounce {
    /// Whether a signal arriving now is accepted rather than collapsed
    /// into the previous one.
    pub open spec fn accepts(self, now_ms: int) -> bool {
        now_ms - self.last_toggle_ms >= TOGGLE_DEBOUNCE_MS as int
    }

    /// The debounce state after a signal arriving now: an accepted signal
    /// starts a new window, a collapsed one leaves the window as it was.
    pub open spec fn spec_registered(self, now_ms: u64) -> ToggleDebounce {
        if self.accepts(now_ms as int) {
            ToggleDebounce { last_toggle_ms: now_ms }
        } else {
            self
        }
    }

    /// A debounce whose window opened at the given instant, so that a
    /// signal within one window of construction is still collapsed.
    pub fn new(now_ms: u64) -> (d: Self)
        ensures
            d.last_toggle_ms == now_ms,
    {
        ToggleDebounce { last_toggle_ms: now_ms }
    }

    /// Registers one toggle signal and reports whether it is accepted.
    /// The clock is monotonic, so the signal never predates the window.
    pub fn register(&mut self, now_ms: u64) -> (accepted: bool)
        requires
            old(self).last_toggle_ms <= now_ms,
        ensures
            accepted == old(self).accepts(now_ms as int),
            *final(self) == old(self).spec_registered(now_ms),
    {
        if now_ms - self.last_toggle_ms < TOGGLE_DEBOUNCE_MS {
            false
        } else {
            self.last_toggle_ms = now_ms;
            true
        }
    }
}

/// Two toggle signals within one debounce window collapse to exactly one
/// accepted transition, while two signals at least a window apart are
/// both accepted — whichever listeners they came from.
pub proof fn lemma_debounce_collapses_duplicates(d: ToggleDebounce, t1: u64, t2: u64)
    requires
        d.accepts(t1 as int),  // the first signal opens a new window
        t1 <= t2,
    ensures
        ({
            let d1 = d.spec_registered(t1);
            &&& t2 < t1 + TOGGLE_DEBOUNCE_MS ==> !d1.accepts(t2 as int)
                && d1.spec_registered(t2) == d1
            &&& t2 >= t1 + TOGGLE_DEBOUNCE_MS ==> d1.accepts(t2 as int)
        }),
{
}

} // verus!
