//! The clicking engine: the run state shared with the background click
//! loop, the start/stop/interval-update lifecycle, and the cadence of one
//! loop iteration.
//!
//! The engine is the authoritative state machine; the surrounding
//! application mirrors every transition onto the thread that performs the
//! injections. `active_loops` counts the loops that are still allowed to
//! click (spawned and not yet signalled to stop) and `loops_spawned`
//! identifies the current loop, so that the contracts can say that an
//! interval update reaches the running loop without restarting it, and
//! that a new start always tears the previous loop down first.

use vstd::prelude::*;
use crate::button::{button_of_name, MouseButtonSelector};
use crate::{DEFAULT_INTERVAL_MS, MAX_INTERVAL_MS, MIN_INTERVAL_MS};

verus! {

/// Milliseconds between the injected press and the injected release of one
/// click.
pub const SETTLE_MS: u64 = 10;

/// The run state of one clicking engine together with a record of its loop
/// lifecycle.
pub struct ClickingEngine {
    /// Whether the current loop is allowed to keep clicking. The loop reads
    /// this at the top of every iteration and exits once it is false.
    pub running: bool,
    /// The interval between click starts, in milliseconds. The loop reads
    /// it anew on every iteration, so an update is observed without a
    /// restart.
    pub interval_ms: u64,
    /// The button that the current loop clicks.
    pub button: MouseButtonSelector,
    /// How many loops are spawned and not yet signalled to stop. The
    /// engine never lets this exceed one.
    pub active_loops: u64,
    /// How many loops were ever spawned; the live loop, if any, is the
    /// most recent one.
    pub loops_spawned: u64,
}

impl ClickingEngine {
    /// The engine's internal invariant: the interval stays in range, and
    /// there is exactly one active loop precisely while the engine runs.
    pub open spec fn wf(self) -> bool {
        &&& MIN_INTERVAL_MS <= self.interval_ms <= MAX_INTERVAL_MS
        &&& self.active_loops <= 1
        &&& (self.running <==> self.active_loops == 1)
        &&& (self.running ==> self.loops_spawned >= 1)
    }

    /// A fresh engine: stopped, with the default interval.
    pub open spec fn spec_new() -> ClickingEngine {
        ClickingEngine {
            running: false,
            interval_ms: DEFAULT_INTERVAL_MS,
            button: MouseButtonSelector::Left,
            active_loops: 0,
            loops_spawned: 0,
        }
    }

    /// The engine after an interval update: only the stored interval
    /// changes; the loop bookkeeping is untouched.
    pub open spec fn spec_with_interval(self, new_ms: u64) -> ClickingEngine {
        ClickingEngine { interval_ms: new_ms, ..self }
    }

    /// The engine after a stop: the loop is signalled, so no loop may
    /// click any more.
    pub open spec fn spec_stopped(self) -> ClickingEngine {
        ClickingEngine { running: false, active_loops: 0, ..self }
    }

    /// The engine after a start: any previous loop was signalled to stop
    /// during the handoff, and exactly one fresh loop runs with the new
    /// parameters.
    pub open spec fn spec_started(
        self,
        button: MouseButtonSelector,
        interval_ms: u64,
    ) -> ClickingEngine {
        ClickingEngine {
            running: true,
            interval_ms: interval_ms,
            button: button,
            active_loops: 1,
            loops_spawned: (self.loops_spawned + 1) as u64,
        }
    }

    /// Creates a stopped engine with the default interval.
    pub fn new() -> (e: Self)
        ensures
            e == Self::spec_new(),
            e.wf(),
    {
        ClickingEngine {
            running: false,
            interval_ms: DEFAULT_INTERVAL_MS,
            button: MouseButtonSelector::Left,
            active_loops: 0,
            loops_spawned: 0,
        }
    }

    /// Stores a new interval in place. A loop in flight picks it up on its
    /// next iteration; no loop is stopped, spawned or restarted. When no
    /// loop runs, the value is kept for the next start.
    pub fn update_interval(&mut self, new_ms: u64)
        requires
            old(self).wf(),
            MIN_INTERVAL_MS <= new_ms <= MAX_INTERVAL_MS,
        ensures
            *final(self) == old(self).spec_with_interval(new_ms),
            final(self).wf(),
    {
        self.interval_ms = new_ms;
    }

    /// Starts clicking `button` every `interval_ms` milliseconds. If a
    /// loop is already active it is signalled to stop, and only after that
    /// handoff is the single new loop spawned, so two loops never click
    /// concurrently. The button name resolves through `button_of_name`;
    /// an unrecognised name clicks the left button.
    pub fn start(&mut self, button: &str, interval_ms: u64)
        requires
            old(self).wf(),
            MIN_INTERVAL_MS <= interval_ms <= MAX_INTERVAL_MS,
            old(self).loops_spawned < u64::MAX,
        ensures
            *final(self) == old(self).spec_started(button_of_name(button@), interval_ms),
            final(self).wf(),
    {
        if self.running {
            // signal the previous loop; the caller's mirror waits out the
            // grace period before the new loop may click
            self.running = false;
            self.active_loops = 0;
        }
        self.interval_ms = interval_ms;
        self.button = MouseButtonSelector::from_name(button);
        self.running = true;
        self.active_loops = 1;
        self.loops_spawned = self.loops_spawned + 1;
    }

    /// Signals the loop to stop. The loop observes the flag on its own
    /// cadence, at most one full interval later, and exits without
    /// emitting a further click. Stopping a stopped engine is a no-op.
    pub fn stop(&mut self)
        requires
            old(self).wf(),
        ensures
            *final(self) == old(self).spec_stopped(),
            final(self).wf(),
    {
        self.running = false;
        self.active_loops = 0;
    }
}

/// How long the loop still waits after a click so that the whole iteration
/// spans the configured interval.
pub open spec fn wait_after_click(interval_ms: int, elapsed_ms: int) -> int {
    if elapsed_ms < interval_ms {
        interval_ms - elapsed_ms
    } else {
        0
    }
}

/// The span of one loop iteration, from click start to the next click
/// start: the work already done plus the remaining wait.
pub open spec fn iteration_period(interval_ms: int, elapsed_ms: int) -> int {
    elapsed_ms + wait_after_click(interval_ms, elapsed_ms)
}

/// Computes the remaining wait of one loop iteration: the loop sleeps for
/// the configured interval minus the time the click itself already took,
/// and does not sleep at all when the click overran the interval. The
/// period between click starts therefore equals the configured interval
/// whenever the interval covers the injection latency, with no cumulative
/// drift.
pub fn remaining_wait(interval_ms: u64, elapsed_ms: u64) -> (r: u64)
    ensures
        r == wait_after_click(interval_ms as int, elapsed_ms as int),
        elapsed_ms + r == iteration_period(interval_ms as int, elapsed_ms as int),
        elapsed_ms <= interval_ms ==> elapsed_ms + r == interval_ms,
{
    if elapsed_ms < interval_ms {
        interval_ms - elapsed_ms
    } else {
        0
    }
}

/// An interval update during an active run reaches the running loop on its
/// next iteration: the update does not stop, spawn or restart any loop,
/// and the next iteration's period is governed by the new value alone.
pub proof fn lemma_update_interval_applies_to_next_iteration(
    e: ClickingEngine,
    new_ms: u64,
    work_ms: u64,
)
    requires
        e.wf(),
        e.running,
        MIN_INTERVAL_MS <= new_ms <= MAX_INTERVAL_MS,
    ensures
        ({
            let e2 = e.spec_with_interval(new_ms);
            &&& e2.running
            &&& e2.loops_spawned == e.loops_spawned  // the same loop is still live
            &&& e2.active_loops == e.active_loops  // none was torn down or spawned
            &&& e2.interval_ms == new_ms
            &&& iteration_period(e2.interval_ms as int, work_ms as int) == if work_ms
                < new_ms {
                new_ms as int
            } else {
                work_ms as int
            }
        }),
{
}

/// Starting while a loop is already active never yields two concurrently
/// active loops: the handoff tears the old loop down, and exactly one
/// loop — a fresh one — is active afterwards. Two injected presses can
/// therefore never come from different loops in the same settle window.
pub proof fn lemma_start_never_duplicates_loops(
    e: ClickingEngine,
    button: MouseButtonSelector,
    interval_ms: u64,
)
    requires
        e.wf(),
        e.running,
        MIN_INTERVAL_MS <= interval_ms <= MAX_INTERVAL_MS,
        e.loops_spawned < u64::MAX,
    ensures
        ({
            let e2 = e.spec_started(button, interval_ms);
            &&& e2.wf()
            &&& e2.active_loops == 1  // never two
            &&& e2.loops_spawned == e.loops_spawned + 1  // the old loop is gone
        }),
{
}

/// A stop followed immediately by a start leaves exactly one active loop,
/// a fresh one, and every click after the transition uses the newly
/// supplied button and interval.
pub proof fn lemma_stop_then_start_single_handoff(
    e: ClickingEngine,
    button: MouseButtonSelector,
    interval_ms: u64,
)
    requires
        e.wf(),
        MIN_INTERVAL_MS <= interval_ms <= MAX_INTERVAL_MS,
        e.loops_spawned < u64::MAX,
    ensures
        ({
            let e2 = e.spec_stopped().spec_started(button, interval_ms);
            &&& e2.wf()
            &&& e2.active_loops == 1
            &&& e2.loops_spawned == e.loops_spawned + 1
            &&& e2.interval_ms == interval_ms
            &&& e2.button == button
        }),
{
}

} // verus!
