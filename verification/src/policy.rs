//! The scroll-to-interval adjustment policy: a raw scroll delta, the time
//! since the previous adjustment and the current interval produce the next
//! interval, with an acceleration curve and clamping.

use vstd::prelude::*;
use crate::{clamped_interval, MAX_INTERVAL_MS, MIN_INTERVAL_MS};

verus! {

/// Scrolls closer together than this many milliseconds get the heavy
/// acceleration multiplier.
pub const FAST_SCROLL_MS: u64 = 50;

/// Scrolls closer together than this many milliseconds (but not fast)
/// get the light acceleration multiplier.
pub const MEDIUM_SCROLL_MS: u64 = 100;

/// Deltas of at least this magnitude are raw wheel units rather than step
/// counts.
pub const STEP_DELTA_LIMIT: i32 = 10;

/// One wheel notch in raw wheel units.
pub const WHEEL_NOTCH: i32 = 120;

/// Division that truncates toward zero, for a positive divisor.
pub open spec fn trunc_div(a: int, b: int) -> int {
    if a >= 0 {
        a / b
    } else {
        -((-a) / b)
    }
}

/// The acceleration multiplier earned by scrolling quickly: heavy within
/// the fast window, light within the medium window, none otherwise.
pub open spec fn accel_multiplier(elapsed_ms: int) -> int {
    if elapsed_ms < FAST_SCROLL_MS as int {
        5
    } else if elapsed_ms < MEDIUM_SCROLL_MS as int {
        2
    } else {
        1
    }
}

/// The step count of a raw scroll delta: a small delta already counts
/// steps, a large one counts wheel units and is divided by the notch
/// size.
pub open spec fn scroll_steps(delta: int) -> int {
    if -(STEP_DELTA_LIMIT as int) < delta < STEP_DELTA_LIMIT as int {
        delta
    } else {
        trunc_div(delta, WHEEL_NOTCH as int)
    }
}

/// The interval that an adjustment produces: the accelerated step count is
/// subtracted from the current interval (scrolling up shortens it) and the
/// result is clamped into the supported range.
pub open spec fn adjusted_interval(current: int, delta: int, elapsed_ms: int) -> int {
    clamped_interval(current - scroll_steps(delta) * accel_multiplier(elapsed_ms))
}

/// Applies one scroll delta to the current interval. `elapsed_ms` is the
/// time since the previous adjustment; rapid scrolling earns a larger
/// multiplier, so coarse adjustment comes from fast scrolling and
/// single-millisecond adjustment from slow scrolling. The result always
/// lies in the supported interval range.
pub fn adjust(current: u64, delta: i32, elapsed_ms: u64) -> (r: u64)
    ensures
        r == adjusted_interval(current as int, delta as int, elapsed_ms as int),
        MIN_INTERVAL_MS <= r <= MAX_INTERVAL_MS,
{
    let mult: u64 = if elapsed_ms < FAST_SCROLL_MS {
        5
    } else if elapsed_ms < MEDIUM_SCROLL_MS {
        2
    } else {
        1
    };
    let d: i64 = delta as i64;
    let negative = d < 0;
    let magnitude: u64 = if negative {
        (-d) as u64
    } else {
        d as u64
    };
    let step_magnitude: u64 = if magnitude < STEP_DELTA_LIMIT as u64 {
        magnitude
    } else {
        magnitude / (WHEEL_NOTCH as u64)
    };
    proof {
        if negative {
            assert(scroll_steps(delta as int) == -(step_magnitude as int));
        } else {
            assert(scroll_steps(delta as int) == step_magnitude as int);
        }
        assert(step_magnitude <= 0x8000_0000);
    }
    let change: u64 = if mult == 5 {
        step_magnitude * 5
    } else if mult == 2 {
        step_magnitude * 2
    } else {
        step_magnitude
    };
    proof {
        if negative {
            assert(scroll_steps(delta as int) * accel_multiplier(elapsed_ms as int)
                == -(change as int));
        } else {
            assert(scroll_steps(delta as int) * accel_multiplier(elapsed_ms as int)
                == change as int);
        }
    }
    if negative {
        // scrolling the other way lengthens the interval
        if current >= MAX_INTERVAL_MS || change >= MAX_INTERVAL_MS {
            MAX_INTERVAL_MS
        } else {
            let raw = current + change;
            if raw > MAX_INTERVAL_MS {
                MAX_INTERVAL_MS
            } else if raw < MIN_INTERVAL_MS {
                MIN_INTERVAL_MS
            } else {
                raw
            }
        }
    } else {
        if change >= current {
            // the whole interval is eaten up; the floor applies
            MIN_INTERVAL_MS
        } else {
            let raw = current - change;
            if raw > MAX_INTERVAL_MS {
                MAX_INTERVAL_MS
            } else if raw < MIN_INTERVAL_MS {
                MIN_INTERVAL_MS
            } else {
                raw
            }
        }
    }
}

} // verus!
