use super_clicker::button::MouseButtonSelector;
use super_clicker::clicking::{remaining_wait, ClickingEngine};

#[test]
fn fresh_engine_is_stopped_with_default_interval() {
    let e = ClickingEngine::new();
    assert!(!e.running);
    assert_eq!(e.interval_ms, 100);
    assert_eq!(e.active_loops, 0);
    assert_eq!(e.loops_spawned, 0);
}

#[test]
fn start_spawns_exactly_one_loop() {
    let mut e = ClickingEngine::new();
    e.start("Right", 250);
    assert!(e.running);
    assert_eq!(e.interval_ms, 250);
    assert_eq!(e.button, MouseButtonSelector::Right);
    assert_eq!(e.active_loops, 1);
    assert_eq!(e.loops_spawned, 1);
}

#[test]
fn start_while_running_never_leaves_two_loops() {
    let mut e = ClickingEngine::new();
    e.start("Left", 100);
    e.start("Middle", 40);
    assert_eq!(e.active_loops, 1);
    assert_eq!(e.loops_spawned, 2);
    assert_eq!(e.interval_ms, 40);
    assert_eq!(e.button, MouseButtonSelector::Middle);
}

#[test]
fn stop_then_start_hands_off_to_one_fresh_loop() {
    let mut e = ClickingEngine::new();
    e.start("Left", 100);
    e.stop();
    assert_eq!(e.active_loops, 0);
    e.start("Right", 5);
    assert_eq!(e.active_loops, 1);
    assert_eq!(e.loops_spawned, 2);
    assert_eq!(e.interval_ms, 5);
    assert_eq!(e.button, MouseButtonSelector::Right);
}

#[test]
fn interval_update_reaches_the_live_loop_without_restart() {
    let mut e = ClickingEngine::new();
    e.start("Left", 100);
    let loop_before = e.loops_spawned;
    for v in [1u64, 2, 50, 100, 5000, 10000] {
        e.update_interval(v);
        assert_eq!(e.interval_ms, v);
        assert_eq!(e.loops_spawned, loop_before);
        assert_eq!(e.active_loops, 1);
        assert!(e.running);
        // the next iteration sleeps out exactly the new interval
        assert_eq!(0 + remaining_wait(e.interval_ms, 0), v);
    }
}

#[test]
fn stop_is_idempotent() {
    let mut e = ClickingEngine::new();
    e.stop();
    assert!(!e.running);
    e.start("Left", 100);
    e.stop();
    e.stop();
    assert!(!e.running);
    assert_eq!(e.active_loops, 0);
}

#[test]
fn wait_compensates_for_injection_latency() {
    assert_eq!(remaining_wait(100, 30), 70);
    assert_eq!(remaining_wait(100, 0), 100);
    assert_eq!(remaining_wait(100, 100), 0);
    assert_eq!(remaining_wait(100, 150), 0);
    assert_eq!(remaining_wait(1, 0), 1);
}

#[test]
fn unrecognised_button_name_resolves_to_left() {
    assert_eq!(MouseButtonSelector::from_name("Left"), MouseButtonSelector::Left);
    assert_eq!(MouseButtonSelector::from_name("Right"), MouseButtonSelector::Right);
    assert_eq!(MouseButtonSelector::from_name("Middle"), MouseButtonSelector::Middle);
    assert_eq!(MouseButtonSelector::from_name("left"), MouseButtonSelector::Left);
    assert_eq!(MouseButtonSelector::from_name(""), MouseButtonSelector::Left);
    assert_eq!(MouseButtonSelector::from_name("Side"), MouseButtonSelector::Left);
}
