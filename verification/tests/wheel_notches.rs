//! Wheel accumulator behaviour.

use input_device::wheel::wheel_step;

#[test]
fn small_deltas_accumulate_without_a_notch() {
    assert_eq!(wheel_step(0, 30), (30, None));
    assert_eq!(wheel_step(30, 60), (90, None));
    assert_eq!(wheel_step(90, 30), (120, None));
    assert_eq!(wheel_step(0, -120), (-120, None));
}

#[test]
fn crossing_a_notch_emits_and_keeps_the_remainder() {
    assert_eq!(wheel_step(30, 100), (10, Some(1)));
    assert_eq!(wheel_step(0, 121), (1, Some(1)));
    assert_eq!(wheel_step(120, 120), (0, Some(2)));
    assert_eq!(wheel_step(0, 250), (10, Some(2)));
}

#[test]
fn negative_travel_mirrors_positive() {
    assert_eq!(wheel_step(-30, -100), (-10, Some(-1)));
    assert_eq!(wheel_step(0, -121), (-1, Some(-1)));
    assert_eq!(wheel_step(-120, -120), (0, Some(-2)));
}

#[test]
fn large_deltas_are_handled() {
    assert_eq!(wheel_step(0, 1200), (0, Some(10)));
    assert_eq!(wheel_step(5, i32::MAX - 5), (i32::MAX % 120, Some(i32::MAX / 120)));
}
