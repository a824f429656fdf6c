use ethercat_hal::counter_wrapper::{counter_change, set_counter_u16_to_i128, CounterWrapperU16U128};

/// Homing at raw 1328 must give a widened position of 0, not -1328: the stale
/// raw value reported before the device adopts the override is not travel.
#[test]
fn test_override_does_not_produce_phantom_travel() {
    let mut wrapper = CounterWrapperU16U128::new();
    wrapper.update(1328, false, false);
    assert_eq!(wrapper.current(), 1328);

    // Ask for 0 and hand the value to the device.
    wrapper.push_override(0);
    assert_eq!(wrapper.pop_override(), Some(0));
    assert_eq!(wrapper.current(), 0);

    // The device has not adopted it yet and still reports the old raw value.
    wrapper.update(1328, false, false);
    assert_eq!(wrapper.current(), 0, "stale raw value must not count as travel");

    // Now it adopts the override.
    wrapper.update(0, false, false);
    assert_eq!(wrapper.current(), 0);

    // And normal counting resumes from there.
    wrapper.update(25, false, false);
    assert_eq!(wrapper.current(), 25);
}

/// A device that never reports the exact override value must not freeze the
/// counter permanently.
#[test]
fn test_override_wait_is_bounded() {
    let mut wrapper = CounterWrapperU16U128::new();
    wrapper.push_override(500);
    assert_eq!(wrapper.pop_override(), Some(500));
    for _ in 0..CounterWrapperU16U128::OVERRIDE_TIMEOUT_CYCLES {
        wrapper.update(9999, false, false);
    }
    assert_eq!(wrapper.current(), 500);
    // Resynchronised: further motion accumulates again.
    wrapper.update(10_009, false, false);
    assert_eq!(wrapper.current(), 510);
}

#[test]
fn test_set_counter_u16_to_i128() {
    // Normal values within u16 range
    assert_eq!(set_counter_u16_to_i128(0), 0);
    assert_eq!(set_counter_u16_to_i128(1000), 1000);
    assert_eq!(set_counter_u16_to_i128(65535), 65535);

    // Overflow values
    assert_eq!(set_counter_u16_to_i128(65536), 0);
    assert_eq!(set_counter_u16_to_i128(65537), 1);
    assert_eq!(set_counter_u16_to_i128(65536 + 1000), 1000);
    assert_eq!(set_counter_u16_to_i128(65536 * 2 + 5), 5);

    // Negative values
    assert_eq!(set_counter_u16_to_i128(-1), 65535);
    assert_eq!(set_counter_u16_to_i128(-2), 65534);
    assert_eq!(set_counter_u16_to_i128(-1000), 64536);
    assert_eq!(set_counter_u16_to_i128(-65536), 0);
    assert_eq!(set_counter_u16_to_i128(-65537), 65535);

    // Large values
    assert_eq!(set_counter_u16_to_i128(65536 * 1000 + 42), 42);
    assert_eq!(set_counter_u16_to_i128(-65536 * 1000 - 42), 65494);
}

#[test]
fn test_set_counter_u16_to_i128_roundtrip() {
    for i in -100..100 {
        let u16_value = set_counter_u16_to_i128(i);
        let i128_value = i % 65536;
        let normalized_i128 = if i128_value < 0 {
            i128_value + 65536
        } else {
            i128_value
        };
        assert_eq!(u16_value, normalized_i128 as u16);
    }
}

#[test]
fn test_normal_increment() {
    assert_eq!(counter_change(100, 105, false, false), 5);
}

#[test]
fn test_normal_decrement() {
    assert_eq!(counter_change(100, 95, false, false), -5);
}

#[test]
fn test_overflow() {
    // 65535 -> 2 with the overflow flag: 2 - 65535 + 65536 = 3
    assert_eq!(counter_change(65535, 2, false, true), 3);
    // 65535 -> 0 with the overflow flag: 0 - 65535 + 65536 = 1
    assert_eq!(counter_change(65535, 0, false, true), 1);
}

#[test]
fn test_underflow() {
    // 0 -> 65533 with the underflow flag: 65533 - 0 - 65536 = -3
    assert_eq!(counter_change(0, 65533, true, false), -3);
    // 0 -> 65535 with the underflow flag: 65535 - 0 - 65536 = -1
    assert_eq!(counter_change(0, 65535, true, false), -1);
}

#[test]
fn test_large_changes() {
    assert_eq!(counter_change(1000, 5000, false, false), 4000);
    assert_eq!(counter_change(5000, 1000, false, false), -4000);
}

#[test]
fn test_edge_cases() {
    let diff1 = counter_change(65535, 10, false, true);
    assert_eq!(diff1, 11);

    let diff2 = counter_change(10, 20, false, false);
    assert_eq!(diff2, 10);

    assert_eq!(counter_change(0, 65535, false, false), 65535);
    assert_eq!(counter_change(65535, 0, false, false), -65535);
}

#[test]
fn test_integration() {
    let mut position: i128 = 0;
    #[allow(unused_assignments)]
    let mut raw_counter: u16 = 0;

    raw_counter = 65530;
    position += counter_change(0, raw_counter, false, false) as i128;
    assert_eq!(position, 65530);

    let mut prev = raw_counter;
    raw_counter = 65535;
    position += counter_change(prev, raw_counter, false, false) as i128;
    assert_eq!(position, 65535);

    prev = raw_counter;
    raw_counter = 5;
    position += counter_change(prev, raw_counter, false, true) as i128;
    assert_eq!(position, 65541);

    prev = raw_counter;
    raw_counter = 65530;
    position += counter_change(prev, raw_counter, false, false) as i128;
    assert_eq!(position, 131066);

    position = 5;
    raw_counter = 5;
    prev = raw_counter;
    raw_counter = 65535;
    position += counter_change(prev, raw_counter, true, false) as i128;
    assert_eq!(position, -1);
}

/// The overflow flag only counts on its rising edge: a flag that stays set
/// does not add a second period.
#[test]
fn overflow_flag_counts_once_per_rising_edge() {
    let mut wrapper = CounterWrapperU16U128::new();
    wrapper.update(65530, false, false);
    wrapper.update(4, false, true);
    assert_eq!(wrapper.current(), 65540);
    wrapper.update(10, false, true);
    assert_eq!(wrapper.current(), 65546);
}

/// An override that is never popped does not change the counter.
#[test]
fn pushed_override_waits_for_pop() {
    let mut wrapper = CounterWrapperU16U128::new();
    wrapper.update(100, false, false);
    wrapper.push_override(-1);
    assert_eq!(wrapper.get_override(), Some(-1));
    assert_eq!(wrapper.current(), 100);
    assert_eq!(wrapper.pop_override(), Some(65535));
    assert_eq!(wrapper.current(), -1);
    assert_eq!(wrapper.get_override(), None);
    assert_eq!(wrapper.pop_override(), None);
}
