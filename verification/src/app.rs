//! The application controller: one dispatcher consumes the normalised
//! event stream and drives the clicking engine, the settings and the
//! theme. Every transition is described exactly, and whatever the
//! surrounding application must perform on the outside — persisting
//! settings, mirroring the loop lifecycle onto the injection thread,
//! probing the system appearance — comes back as an explicit effect.

use vstd::prelude::*;
use crate::button::{button_of_name, MouseButtonSelector};
use crate::clicking::ClickingEngine;
use crate::debounce::{ToggleDebounce, TOGGLE_DEBOUNCE_MS};
use crate::policy::adjusted_interval;
use crate::settings::Settings;
use crate::text::{
    dec_digits, digits_part, dec_value, interval_from_text, interval_or_default,
    is_u64_literal, parse_u64, u64_to_dec_string,
};
use crate::theme::AppTheme;
use crate::{clamp_interval, clamped_interval};

verus! {

/// A message delivered to the controller: user interface actions and the
/// normalised listener events.
#[derive(Clone, Debug)]
pub enum Message {
    IntervalInputChanged(String),
    MouseButtonSelected(String),
    DynamicAdjustmentToggled(bool),
    Start,
    Stop,
    ToggleFromHotkey,
    IntervalChange(i32),
    LocalScroll(i32),
    ModifiersChanged(bool, bool),
    NoOp,
    CheckTheme,
    ThemeChanged(AppTheme),
}

/// Work the controller asks the surrounding application to perform. The
/// controller's own state is already updated when an effect is handed
/// out; the application mirrors it on the outside and treats failures as
/// non-fatal.
#[derive(Clone, Copy, Debug, PartialEq, Eq, Structural)]
pub enum Effect {
    /// Persist the current settings.
    SaveSettings,
    /// Tear down any running click loop, wait out the grace period, and
    /// spawn the single new loop with these parameters.
    StartLoop { button: MouseButtonSelector, interval_ms: u64 },
    /// Signal the click loop to stop.
    StopLoop,
    /// Store this interval for the loop to pick up on its next iteration.
    UpdateLoopInterval(u64),
    /// Probe the system appearance and report it back as a theme change.
    DetectTheme,
}

/// The status line shown for a run state.
pub open spec fn spec_status(running: bool) -> Seq<char> {
    if running {
        "Running"@
    } else {
        "Stopped"@
    }
}

/// The controller's state: the user interface fields, the clicking
/// engine, the settings, and the listener-side bookkeeping.
pub struct SuperClicker {
    /// The status line, always matching the run state.
    pub status: String,
    /// The interval text field as last typed or written back.
    pub interval_input: String,
    /// The chosen button name; resolved leniently when a run starts.
    pub mouse_button_selected: String,
    /// Whether scroll events may adjust the interval.
    pub enable_dynamic_adjustment: bool,
    /// Whether a run is active; mirrors the engine's flag.
    pub is_running: bool,
    /// The clicking engine this controller drives.
    pub clicking_engine: ClickingEngine,
    /// The persisted settings, kept current on every change.
    pub settings: Settings,
    /// Collapses the duplicate toggle the two listeners may both report.
    pub toggle_debounce: ToggleDebounce,
    /// Foreground control state, fed by modifier-change messages.
    pub ctrl_pressed: bool,
    /// Foreground alt state, fed by modifier-change messages.
    pub alt_pressed: bool,
    /// When the previous interval adjustment happened, for the
    /// acceleration curve.
    pub last_scroll_ms: u64,
    /// The palette in use.
    pub current_theme: AppTheme,
}

impl SuperClicker {
    /// The controller's invariant: the engine is well formed, the
    /// run flag mirrors it, and the status line matches.
    pub open spec fn wf(self) -> bool {
        &&& self.clicking_engine.wf()
        &&& self.is_running == self.clicking_engine.running
        &&& self.status@ == spec_status(self.is_running)
    }

    /// The interval a start uses: the text field read with its fallback,
    /// brought into the supported range.
    pub open spec fn start_interval(self) -> int {
        clamped_interval(interval_from_text(self.interval_input@))
    }

    /// The button a start uses, resolved leniently from the chosen name.
    pub open spec fn start_button(self) -> MouseButtonSelector {
        button_of_name(self.mouse_button_selected@)
    }
}

/// How a run start transforms the controller: the run flag and status
/// flip, the engine hands off to a single fresh loop with the interval
/// read from the text field and the resolved button, and the one effect
/// tells the application to mirror the handoff.
pub open spec fn started_from(pre: SuperClicker, post: SuperClicker, effects: Seq<Effect>) -> bool {
    &&& post == SuperClicker {
        status: post.status,
        is_running: true,
        clicking_engine: pre.clicking_engine.spec_started(
            pre.start_button(),
            pre.start_interval() as u64,
        ),
        ..pre
    }
    &&& post.status@ == spec_status(true)
    &&& effects =~= seq![
        Effect::StartLoop {
            button: pre.start_button(),
            interval_ms: pre.start_interval() as u64,
        },
    ]
}

/// How a stop transforms the controller: the run flag and status flip,
/// the engine signals its loop, and the one effect tells the application
/// to mirror the signal. Stopping twice is harmless.
pub open spec fn stopped_from(pre: SuperClicker, post: SuperClicker, effects: Seq<Effect>) -> bool {
    &&& post == SuperClicker {
        status: post.status,
        is_running: false,
        clicking_engine: pre.clicking_engine.spec_stopped(),
        ..pre
    }
    &&& post.status@ == spec_status(false)
    &&& effects =~= seq![Effect::StopLoop]
}

/// How a toggle signal transforms the controller: a signal inside the
/// debounce window changes nothing, an accepted one opens a new window
/// and flips the run state.
pub open spec fn toggled_from(
    pre: SuperClicker,
    post: SuperClicker,
    now_ms: u64,
    effects: Seq<Effect>,
) -> bool {
    if !pre.toggle_debounce.accepts(now_ms as int) {
        &&& post == pre
        &&& effects =~= Seq::<Effect>::empty()
    } else {
        let mid = SuperClicker {
            toggle_debounce: ToggleDebounce { last_toggle_ms: now_ms },
            ..pre
        };
        if pre.is_running {
            stopped_from(mid, post, effects)
        } else {
            started_from(mid, post, effects)
        }
    }
}

/// How one scroll delta transforms the controller. With dynamic
/// adjustment disabled the scroll is a no-op. Otherwise the adjustment
/// policy produces the next interval from the current text-field value,
/// the delta and the time since the previous scroll; a changed value is
/// written back to the text field, the settings and the engine, an
/// unchanged one only restarts the acceleration clock.
pub open spec fn adjusted_from(
    pre: SuperClicker,
    post: SuperClicker,
    delta: int,
    now_ms: u64,
    effects: Seq<Effect>,
) -> bool {
    if !pre.enable_dynamic_adjustment {
        &&& post == pre
        &&& effects =~= Seq::<Effect>::empty()
    } else {
        let elapsed = now_ms - pre.last_scroll_ms;
        let current = interval_from_text(pre.interval_input@);
        let new_ms = adjusted_interval(current, delta, elapsed);
        if new_ms != current {
            &&& post == SuperClicker {
                interval_input: post.interval_input,
                settings: post.settings,
                clicking_engine: pre.clicking_engine.spec_with_interval(new_ms as u64),
                last_scroll_ms: now_ms,
                ..pre
            }
            &&& post.interval_input@ == dec_digits(new_ms)
            &&& post.settings == Settings { interval_ms: new_ms as u64, ..pre.settings }
            &&& effects =~= seq![
                Effect::SaveSettings,
                Effect::UpdateLoopInterval(new_ms as u64),
            ]
        } else {
            &&& post == SuperClicker { last_scroll_ms: now_ms, ..pre }
            &&& effects =~= Seq::<Effect>::empty()
        }
    }
}

/// How an edit of the interval text field transforms the controller: the
/// text is always kept; only a valid number is propagated — brought into
/// range — to the settings and the engine, and persisted.
pub open spec fn interval_text_applied(
    pre: SuperClicker,
    post: SuperClicker,
    text: Seq<char>,
    effects: Seq<Effect>,
) -> bool {
    if is_u64_literal(text) {
        let ms = clamped_interval(dec_value(digits_part(text)));
        &&& post == SuperClicker {
            interval_input: post.interval_input,
            settings: post.settings,
            clicking_engine: pre.clicking_engine.spec_with_interval(ms as u64),
            ..pre
        }
        &&& post.interval_input@ == text
        &&& post.settings == Settings { interval_ms: ms as u64, ..pre.settings }
        &&& effects =~= seq![Effect::SaveSettings, Effect::UpdateLoopInterval(ms as u64)]
    } else {
        &&& post == SuperClicker { interval_input: post.interval_input, ..pre }
        &&& post.interval_input@ == text
        &&& effects =~= Seq::<Effect>::empty()
    }
}

impl SuperClicker {
    /// Builds the controller around freshly loaded settings, the theme
    /// selected for the detected appearance, and the current clock
    /// reading. A toggle within one debounce window of construction is
    /// still collapsed.
    pub fn new(settings: Settings, initial_theme: AppTheme, now_ms: u64) -> (s: Self)
        ensures
            s.wf(),
            !s.is_running,
            s.interval_input@ == dec_digits(settings.interval_ms as int),
            s.mouse_button_selected@ == settings.mouse_button@,
            s.enable_dynamic_adjustment == settings.enable_dynamic_adjustment,
            s.clicking_engine == ClickingEngine::spec_new(),
            s.settings == settings,
            s.toggle_debounce.last_toggle_ms == now_ms,
            !s.ctrl_pressed,
            !s.alt_pressed,
            s.last_scroll_ms == now_ms,
            s.current_theme == initial_theme,
    {
        let interval_input = u64_to_dec_string(settings.interval_ms);
        let mouse_button_selected = settings.mouse_button.clone();
        SuperClicker {
            status: "Stopped".to_owned(),
            interval_input,
            mouse_button_selected,
            enable_dynamic_adjustment: settings.enable_dynamic_adjustment,
            is_running: false,
            clicking_engine: ClickingEngine::new(),
            settings,
            toggle_debounce: ToggleDebounce::new(now_ms),
            ctrl_pressed: false,
            alt_pressed: false,
            last_scroll_ms: now_ms,
            current_theme: initial_theme,
        }
    }

    /// Starts a run: flips the state and hands the engine off to a single
    /// fresh loop.
    fn begin_clicking(&mut self) -> (effects: Vec<Effect>)
        requires
            old(self).wf(),
            old(self).clicking_engine.loops_spawned < u64::MAX,
        ensures
            final(self).wf(),
            started_from(*old(self), *final(self), effects@),
    {
        self.is_running = true;
        self.status = "Running".to_owned();
        let ms = clamp_interval(interval_or_default(self.interval_input.as_str()));
        self.clicking_engine.start(self.mouse_button_selected.as_str(), ms);
        let button = self.clicking_engine.button;
        vec![Effect::StartLoop { button, interval_ms: ms }]
    }

    /// Stops a run: flips the state and signals the loop.
    fn end_clicking(&mut self) -> (effects: Vec<Effect>)
        requires
            old(self).wf(),
        ensures
            final(self).wf(),
            stopped_from(*old(self), *final(self), effects@),
    {
        self.is_running = false;
        self.status = "Stopped".to_owned();
        self.clicking_engine.stop();
        vec![Effect::StopLoop]
    }

    /// Applies one scroll delta to the interval, exactly as
    /// `adjusted_from` describes. With dynamic adjustment disabled every
    /// scroll is a no-op, whatever the modifiers.
    pub fn adjust_interval(&mut self, delta: i32, now_ms: u64) -> (effects: Vec<Effect>)
        requires
            old(self).wf(),
            old(self).last_scroll_ms <= now_ms,
        ensures
            final(self).wf(),
            adjusted_from(*old(self), *final(self), delta as int, now_ms, effects@),
    {
        if !self.enable_dynamic_adjustment {
            return Vec::new();
        }
        let elapsed = now_ms - self.last_scroll_ms;
        self.last_scroll_ms = now_ms;
        let current = interval_or_default(self.interval_input.as_str());
        let new_ms = crate::policy::adjust(current, delta, elapsed);
        if new_ms != current {
            self.interval_input = u64_to_dec_string(new_ms);
            self.settings.interval_ms = new_ms;
            self.clicking_engine.update_interval(new_ms);
            vec![Effect::SaveSettings, Effect::UpdateLoopInterval(new_ms)]
        } else {
            Vec::new()
        }
    }

    /// Consumes one message at the given clock reading and returns the
    /// effects the application must perform. The clock is monotonic with
    /// respect to the recorded toggle and scroll instants.
    #[verifier::rlimit(60)]
    pub fn update(&mut self, message: Message, now_ms: u64) -> (effects: Vec<Effect>)
        requires
            old(self).wf(),
            old(self).toggle_debounce.last_toggle_ms <= now_ms,
            old(self).last_scroll_ms <= now_ms,
            old(self).clicking_engine.loops_spawned < u64::MAX,
        ensures
            final(self).wf(),
            message matches Message::IntervalInputChanged(v) ==> interval_text_applied(
                *old(self),
                *final(self),
                v@,
                effects@,
            ),
            message matches Message::MouseButtonSelected(v) ==> {
                &&& *final(self) == SuperClicker {
                    mouse_button_selected: final(self).mouse_button_selected,
                    settings: final(self).settings,
                    ..*old(self)
                }
                &&& final(self).mouse_button_selected@ == v@
                &&& final(self).settings == Settings {
                    mouse_button: final(self).settings.mouse_button,
                    ..old(self).settings
                }
                &&& final(self).settings.mouse_button@ == v@
                &&& effects@ =~= seq![Effect::SaveSettings]
            },
            message matches Message::DynamicAdjustmentToggled(b) ==> {
                &&& *final(self) == SuperClicker {
                    enable_dynamic_adjustment: b,
                    settings: final(self).settings,
                    ..*old(self)
                }
                &&& final(self).settings == Settings {
                    enable_dynamic_adjustment: b,
                    ..old(self).settings
                }
                &&& effects@ =~= seq![Effect::SaveSettings]
            },
            message is Start ==> started_from(*old(self), *final(self), effects@),
            message is Stop ==> stopped_from(*old(self), *final(self), effects@),
            message is ToggleFromHotkey ==> toggled_from(
                *old(self),
                *final(self),
                now_ms,
                effects@,
            ),
            message matches Message::IntervalChange(delta) ==> adjusted_from(
                *old(self),
                *final(self),
                delta as int,
                now_ms,
                effects@,
            ),
            message matches Message::LocalScroll(delta) ==> {
                if old(self).ctrl_pressed && old(self).alt_pressed {
                    adjusted_from(*old(self), *final(self), delta as int, now_ms, effects@)
                } else {
                    *final(self) == *old(self) && effects@ =~= Seq::<Effect>::empty()
                }
            },
            message matches Message::ModifiersChanged(ctrl, alt) ==> {
                &&& *final(self) == SuperClicker {
                    ctrl_pressed: ctrl,
                    alt_pressed: alt,
                    ..*old(self)
                }
                &&& effects@ =~= Seq::<Effect>::empty()
            },
            message is NoOp ==> *final(self) == *old(self) && effects@ =~= Seq::<
                Effect,
            >::empty(),
            message is CheckTheme ==> *final(self) == *old(self) && effects@ =~= seq![
                Effect::DetectTheme,
            ],
            message matches Message::ThemeChanged(t) ==> {
                &&& *final(self) == SuperClicker { current_theme: t, ..*old(self) }
                &&& effects@ =~= Seq::<Effect>::empty()
            },
    {
        match message {
            Message::IntervalInputChanged(value) => {
                let parsed = parse_u64(value.as_str());
                self.interval_input = value;
                match parsed {
                    Some(raw) => {
                        let ms = clamp_interval(raw);
                        self.settings.interval_ms = ms;
                        self.clicking_engine.update_interval(ms);
                        vec![Effect::SaveSettings, Effect::UpdateLoopInterval(ms)]
                    },
                    None => Vec::new(),
                }
            },
            Message::MouseButtonSelected(value) => {
                self.mouse_button_selected = value.clone();
                self.settings.mouse_button = value;
                vec![Effect::SaveSettings]
            },
            Message::DynamicAdjustmentToggled(value) => {
                self.enable_dynamic_adjustment = value;
                self.settings.enable_dynamic_adjustment = value;
                vec![Effect::SaveSettings]
            },
            Message::Start => self.begin_clicking(),
            Message::Stop => self.end_clicking(),
            Message::ToggleFromHotkey => {
                let accepted = self.toggle_debounce.register(now_ms);
                if !accepted {
                    Vec::new()
                } else if self.is_running {
                    self.end_clicking()
                } else {
                    self.begin_clicking()
                }
            },
            Message::IntervalChange(delta) => self.adjust_interval(delta, now_ms),
            Message::LocalScroll(delta) => {
                if self.ctrl_pressed && self.alt_pressed {
                    self.adjust_interval(delta, now_ms)
                } else {
                    Vec::new()
                }
            },
            Message::ModifiersChanged(ctrl, alt) => {
                self.ctrl_pressed = ctrl;
                self.alt_pressed = alt;
                Vec::new()
            },
            Message::NoOp => Vec::new(),
            Message::CheckTheme => {
                vec![Effect::DetectTheme]
            },
            Message::ThemeChanged(theme) => {
                self.current_theme = theme;
                Vec::new()
            },
        }
    }
}

/// Two toggle signals delivered within one debounce window flip the run
/// state exactly once, and two signals at least a window apart flip it
/// twice — so the OS-wide and the foreground listener both reporting the
/// same physical press never double-toggles.
pub proof fn lemma_toggle_debounce_single_flip(
    s0: SuperClicker,
    s1: SuperClicker,
    s2: SuperClicker,
    t1: u64,
    t2: u64,
    e1: Seq<Effect>,
    e2: Seq<Effect>,
)
    requires
        s0.toggle_debounce.accepts(t1 as int),
        t1 <= t2,
        toggled_from(s0, s1, t1, e1),
        toggled_from(s1, s2, t2, e2),
    ensures
        t2 < t1 + TOGGLE_DEBOUNCE_MS ==> s2.is_running == !s0.is_running,
        t2 >= t1 + TOGGLE_DEBOUNCE_MS ==> s2.is_running == s0.is_running,
{
    assert(s1.is_running == !s0.is_running);
    assert(s1.toggle_debounce.last_toggle_ms == t1);
}

} // verus!
