use super_clicker::policy::adjust;

#[test]
fn small_delta_counts_steps_directly() {
    // current 100, delta +5, slow scroll: multiplier 1, five steps
    assert_eq!(adjust(100, 5, 1000), 95);
}

#[test]
fn large_delta_counts_wheel_notches() {
    // 240 raw units are two notches; multiplier 1
    assert_eq!(adjust(100, 240, 1000), 98);
    assert_eq!(adjust(100, 120, 1000), 99);
}

#[test]
fn rapid_scrolling_accelerates() {
    // a scroll 30 ms after the previous one: one step times five
    assert_eq!(adjust(100, 1, 30), 95);
    // between 50 and 100 ms: one step times two
    assert_eq!(adjust(100, 1, 70), 98);
    // exactly at the window edges
    assert_eq!(adjust(100, 1, 50), 98);
    assert_eq!(adjust(100, 1, 100), 99);
}

#[test]
fn scrolling_down_lengthens_the_interval() {
    assert_eq!(adjust(100, -5, 1000), 105);
    assert_eq!(adjust(100, -240, 1000), 102);
    assert_eq!(adjust(100, -1, 30), 105);
}

#[test]
fn result_is_clamped_to_the_supported_range() {
    assert_eq!(adjust(3, 5, 1000), 1);
    assert_eq!(adjust(1, 1, 1000), 1);
    assert_eq!(adjust(9999, -240, 30), 10000);
    assert_eq!(adjust(10000, -1, 1000), 10000);
    // an out-of-range current value is pulled back in
    assert_eq!(adjust(50000, 1, 1000), 10000);
    assert_eq!(adjust(0, -1, 1000), 1);
}

#[test]
fn sub_notch_large_delta_rounds_toward_zero() {
    // 10..119 raw units are less than one notch
    assert_eq!(adjust(100, 10, 1000), 100);
    assert_eq!(adjust(100, 119, 1000), 100);
    assert_eq!(adjust(100, -10, 1000), 100);
}
