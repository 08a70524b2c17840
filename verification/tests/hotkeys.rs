use super_clicker::hotkeys::{
    ForegroundTracker, GlobalEvent, GlobalTracker, HotkeyEvent, LocalEvent, TrackedKey,
};

#[test]
fn global_toggle_requires_both_modifiers() {
    let mut t = GlobalTracker::new();
    assert_eq!(t.on_event(GlobalEvent::KeyPress(TrackedKey::ToggleKey)), HotkeyEvent::Ignore);
    t.on_event(GlobalEvent::KeyPress(TrackedKey::ControlLeft));
    assert_eq!(t.on_event(GlobalEvent::KeyPress(TrackedKey::ToggleKey)), HotkeyEvent::Ignore);
    t.on_event(GlobalEvent::KeyPress(TrackedKey::Alt));
    assert_eq!(t.on_event(GlobalEvent::KeyPress(TrackedKey::ToggleKey)), HotkeyEvent::Toggle);
}

#[test]
fn global_release_clears_the_modifier() {
    let mut t = GlobalTracker::new();
    t.on_event(GlobalEvent::KeyPress(TrackedKey::ControlRight));
    t.on_event(GlobalEvent::KeyPress(TrackedKey::AltGr));
    assert_eq!(t.on_event(GlobalEvent::KeyPress(TrackedKey::ToggleKey)), HotkeyEvent::Toggle);
    t.on_event(GlobalEvent::KeyRelease(TrackedKey::ControlRight));
    assert_eq!(t.on_event(GlobalEvent::KeyPress(TrackedKey::ToggleKey)), HotkeyEvent::Ignore);
}

#[test]
fn global_wheel_reports_raw_delta_only_with_modifiers() {
    let mut t = GlobalTracker::new();
    assert_eq!(t.on_event(GlobalEvent::Wheel { delta_y: 120 }), HotkeyEvent::Ignore);
    t.on_event(GlobalEvent::KeyPress(TrackedKey::ControlLeft));
    t.on_event(GlobalEvent::KeyPress(TrackedKey::Alt));
    assert_eq!(
        t.on_event(GlobalEvent::Wheel { delta_y: 120 }),
        HotkeyEvent::IntervalChange(120)
    );
    assert_eq!(
        t.on_event(GlobalEvent::Wheel { delta_y: -240 }),
        HotkeyEvent::IntervalChange(-240)
    );
}

#[test]
fn global_other_keys_are_ignored() {
    let mut t = GlobalTracker::new();
    assert_eq!(t.on_event(GlobalEvent::KeyPress(TrackedKey::Other)), HotkeyEvent::Ignore);
    assert_eq!(t.on_event(GlobalEvent::Other), HotkeyEvent::Ignore);
}

#[test]
fn foreground_reports_modifier_transitions() {
    let mut t = ForegroundTracker::new();
    assert_eq!(
        t.on_event(false, LocalEvent::ModifiersChanged { ctrl: true, alt: false }),
        HotkeyEvent::ModifiersChanged(true, false)
    );
    assert_eq!(
        t.on_event(false, LocalEvent::ModifiersChanged { ctrl: true, alt: true }),
        HotkeyEvent::ModifiersChanged(true, true)
    );
}

#[test]
fn foreground_toggle_requires_both_modifiers() {
    let mut t = ForegroundTracker::new();
    assert_eq!(t.on_event(false, LocalEvent::KeyPress(TrackedKey::ToggleKey)), HotkeyEvent::Ignore);
    t.on_event(false, LocalEvent::ModifiersChanged { ctrl: true, alt: true });
    assert_eq!(t.on_event(false, LocalEvent::KeyPress(TrackedKey::ToggleKey)), HotkeyEvent::Toggle);
}

#[test]
fn foreground_wheel_is_handed_on() {
    let mut t = ForegroundTracker::new();
    assert_eq!(
        t.on_event(false, LocalEvent::WheelScrolled { amount: -3 }),
        HotkeyEvent::LocalScroll(-3)
    );
}

#[test]
fn captured_events_are_suppressed() {
    let mut t = ForegroundTracker::new();
    t.on_event(false, LocalEvent::ModifiersChanged { ctrl: true, alt: true });
    // a focused widget consumed these; nothing may be emitted or tracked
    assert_eq!(
        t.on_event(true, LocalEvent::KeyPress(TrackedKey::ToggleKey)),
        HotkeyEvent::Ignore
    );
    assert_eq!(
        t.on_event(true, LocalEvent::ModifiersChanged { ctrl: false, alt: false }),
        HotkeyEvent::Ignore
    );
    // the tracked state survived the captured event
    assert_eq!(t.on_event(false, LocalEvent::KeyPress(TrackedKey::ToggleKey)), HotkeyEvent::Toggle);
}
