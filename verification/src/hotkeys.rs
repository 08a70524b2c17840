//! The hotkey and input listener layer: two independent sources — an
//! OS-wide one and a foreground one — normalise raw key, modifier and
//! wheel events into one small event vocabulary. The sources stay simple
//! and uncoordinated; collapsing the duplicate toggle they may both report
//! is the consumer's job (see the toggle debounce).

use vstd::prelude::*;

verus! {

/// The keys that the listeners distinguish; every other key is `Other`.
#[derive(Clone, Copy, Debug, PartialEq, Eq, Structural)]
pub enum TrackedKey {
    ControlLeft,
    ControlRight,
    Alt,
    AltGr,
    ToggleKey,
    Other,
}

/// A raw event as the OS-wide listener delivers it, reduced to what the
/// tracker reads: key transitions and vertical wheel motion.
#[derive(Clone, Copy, Debug, PartialEq, Eq, Structural)]
pub enum GlobalEvent {
    KeyPress(TrackedKey),
    KeyRelease(TrackedKey),
    Wheel { delta_y: i32 },
    Other,
}

/// A raw event as the foreground surface delivers it. Wheel motion
/// arrives already reduced to a signed amount: line scrolls count lines,
/// pixel scrolls are scaled down to match line magnitude before they get
/// here.
#[derive(Clone, Copy, Debug, PartialEq, Eq, Structural)]
pub enum LocalEvent {
    ModifiersChanged { ctrl: bool, alt: bool },
    KeyPress(TrackedKey),
    WheelScrolled { amount: i32 },
    Other,
}

/// The normalised event stream that both sources feed the consumer.
#[derive(Clone, Copy, Debug, PartialEq, Eq, Structural)]
pub enum HotkeyEvent {
    /// The toggle combination was pressed.
    Toggle,
    /// The OS-wide listener saw wheel motion with both modifiers held;
    /// the payload is the raw signed delta.
    IntervalChange(i32),
    /// The foreground surface saw wheel motion; the consumer decides,
    /// from its own modifier state, whether it adjusts the interval.
    LocalScroll(i32),
    /// The foreground modifier state changed.
    ModifiersChanged(bool, bool),
    /// Nothing the consumer acts on.
    Ignore,
}

/// The OS-wide source: tracks control and alt from raw key transitions
/// and emits `Toggle` or `IntervalChange` when the combination is held.
/// It sees events even while the application is not focused.
pub struct GlobalTracker {
    pub ctrl: bool,
    pub alt: bool,
}

impl GlobalTracker {
    /// The tracker state after one raw event.
    pub open spec fn spec_state_after(self, e: GlobalEvent) -> GlobalTracker {
        match e {
            GlobalEvent::KeyPress(TrackedKey::ControlLeft) => GlobalTracker { ctrl: true, ..self },
            GlobalEvent::KeyPress(TrackedKey::ControlRight) => GlobalTracker { ctrl: true, ..self },
            GlobalEvent::KeyRelease(TrackedKey::ControlLeft) => GlobalTracker {
                ctrl: false,
                ..self
            },
            GlobalEvent::KeyRelease(TrackedKey::ControlRight) => GlobalTracker {
                ctrl: false,
                ..self
            },
            GlobalEvent::KeyPress(TrackedKey::Alt) => GlobalTracker { alt: true, ..self },
            GlobalEvent::KeyPress(TrackedKey::AltGr) => GlobalTracker { alt: true, ..self },
            GlobalEvent::KeyRelease(TrackedKey::Alt) => GlobalTracker { alt: false, ..self },
            GlobalEvent::KeyRelease(TrackedKey::AltGr) => GlobalTracker { alt: false, ..self },
            _ => self,
        }
    }

    /// The event the tracker emits for one raw event: the toggle key with
    /// both modifiers held emits `Toggle`, wheel motion with both held
    /// emits `IntervalChange` with the raw delta, everything else is
    /// ignored.
    pub open spec fn spec_emitted(self, e: GlobalEvent) -> HotkeyEvent {
        match e {
            GlobalEvent::KeyPress(TrackedKey::ToggleKey) => if self.ctrl && self.alt {
                HotkeyEvent::Toggle
            } else {
                HotkeyEvent::Ignore
            },
            GlobalEvent::Wheel { delta_y } => if self.ctrl && self.alt {
                HotkeyEvent::IntervalChange(delta_y)
            } else {
                HotkeyEvent::Ignore
            },
            _ => HotkeyEvent::Ignore,
        }
    }

    /// A tracker that has seen no key yet.
    pub fn new() -> (t: Self)
        ensures
            !t.ctrl,
            !t.alt,
    {
        GlobalTracker { ctrl: false, alt: false }
    }

    /// Feeds one raw event through the tracker and returns what it emits.
    pub fn on_event(&mut self, e: GlobalEvent) -> (ev: HotkeyEvent)
        ensures
            *final(self) == old(self).spec_state_after(e),
            ev == old(self).spec_emitted(e),
    {
        match e {
            GlobalEvent::KeyPress(TrackedKey::ControlLeft)
            | GlobalEvent::KeyPress(TrackedKey::ControlRight) => {
                self.ctrl = true;
                HotkeyEvent::Ignore
            },
            GlobalEvent::KeyRelease(TrackedKey::ControlLeft)
            | GlobalEvent::KeyRelease(TrackedKey::ControlRight) => {
                self.ctrl = false;
                HotkeyEvent::Ignore
            },
            GlobalEvent::KeyPress(TrackedKey::Alt)
            | GlobalEvent::KeyPress(TrackedKey::AltGr) => {
                self.alt = true;
                HotkeyEvent::Ignore
            },
            GlobalEvent::KeyRelease(TrackedKey::Alt)
            | GlobalEvent::KeyRelease(TrackedKey::AltGr) => {
                self.alt = false;
                HotkeyEvent::Ignore
            },
            GlobalEvent::KeyPress(TrackedKey::ToggleKey) => {
                if self.ctrl && self.alt {
                    HotkeyEvent::Toggle
                } else {
                    HotkeyEvent::Ignore
                }
            },
            GlobalEvent::Wheel { delta_y } => {
                if self.ctrl && self.alt {
                    HotkeyEvent::IntervalChange(delta_y)
                } else {
                    HotkeyEvent::Ignore
                }
            },
            _ => HotkeyEvent::Ignore,
        }
    }
}

/// The foreground source: active only while the window receives events.
/// It tracks modifiers independently of the OS-wide source and suppresses
/// any event the surface has already captured, so a focused text field
/// never double-reports a keystroke.
pub struct ForegroundTracker {
    pub ctrl: bool,
    pub alt: bool,
}

impl ForegroundTracker {
    /// The tracker state after one event; a captured event changes
    /// nothing.
    pub open spec fn spec_state_after(self, captured: bool, e: LocalEvent) -> ForegroundTracker {
        if captured {
            self
        } else {
            match e {
                LocalEvent::ModifiersChanged { ctrl, alt } => ForegroundTracker { ctrl, alt },
                _ => self,
            }
        }
    }

    /// The event the tracker emits: nothing for a captured event, the
    /// toggle key with both modifiers held emits `Toggle`, a modifier
    /// transition is reported as such, and wheel motion is handed on for
    /// the consumer to judge.
    pub open spec fn spec_emitted(self, captured: bool, e: LocalEvent) -> HotkeyEvent {
        if captured {
            HotkeyEvent::Ignore
        } else {
            match e {
                LocalEvent::ModifiersChanged { ctrl, alt } => HotkeyEvent::ModifiersChanged(
                    ctrl,
                    alt,
                ),
                LocalEvent::KeyPress(TrackedKey::ToggleKey) => if self.ctrl && self.alt {
                    HotkeyEvent::Toggle
                } else {
                    HotkeyEvent::Ignore
                },
                LocalEvent::WheelScrolled { amount } => HotkeyEvent::LocalScroll(amount),
                _ => HotkeyEvent::Ignore,
            }
        }
    }

    /// A tracker that has seen no modifier yet.
    pub fn new() -> (t: Self)
        ensures
            !t.ctrl,
            !t.alt,
    {
        ForegroundTracker { ctrl: false, alt: false }
    }

    /// Feeds one foreground event through the tracker. `captured` says
    /// that the surface already consumed the event, in which case nothing
    /// is emitted and nothing changes.
    pub fn on_event(&mut self, captured: bool, e: LocalEvent) -> (ev: HotkeyEvent)
        ensures
            *final(self) == old(self).spec_state_after(captured, e),
            ev == old(self).spec_emitted(captured, e),
    {
        if captured {
            return HotkeyEvent::Ignore;
        }
        match e {
            LocalEvent::ModifiersChanged { ctrl, alt } => {
                self.ctrl = ctrl;
                self.alt = alt;
                HotkeyEvent::ModifiersChanged(ctrl, alt)
            },
            LocalEvent::KeyPress(TrackedKey::ToggleKey) => {
                if self.ctrl && self.alt {
                    HotkeyEvent::Toggle
                } else {
                    HotkeyEvent::Ignore
                }
            },
            LocalEvent::WheelScrolled { amount } => HotkeyEvent::LocalScroll(amount),
            _ => HotkeyEvent::Ignore,
        }
    }
}

} // verus!
