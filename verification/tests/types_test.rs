use smartgrid_iot_security::util::{mHz, mVolt, Minutes, Steps, Watt};

fn test_steps() -> (Steps, Steps) {
    let small_step: Steps = Steps(10);
    let big_step: Steps = Steps(350_000); // 10 years in 15 min
    (small_step, big_step)
}

#[test]
fn time_of_day() {
    let (small_step, big_step) = &test_steps();
    assert_eq!(Steps::time_of_day(small_step), Minutes(10 * 15));

    let minutes_per_day = 1440;
    let remaining_big_step_steps_last_day = 350_000 * 15 % minutes_per_day;
    assert_eq!(Steps::time_of_day(big_step), Minutes(remaining_big_step_steps_last_day));
}

#[test]
fn time_of_day_wraps_at_midnight() {
    assert_eq!(Steps::time_of_day(&Steps(0)), Minutes(0));
    assert_eq!(Steps::time_of_day(&Steps(95)), Minutes(1425));
    assert_eq!(Steps::time_of_day(&Steps(96)), Minutes(0));
    assert_eq!(Steps::time_of_day(&Steps(97)), Minutes(15));
}

#[test]
fn time_of_day_of_a_negative_step_is_negative() {
    assert_eq!(Steps::time_of_day(&Steps(-1)), Minutes(-15));
    assert_eq!(Steps::time_of_day(&Steps(-97)), Minutes(-15));
    assert_eq!(Steps::time_of_day(&Steps(-96)), Minutes(0));
}

#[test]
fn time_of_day_does_not_overflow_for_the_largest_step() {
    let expected = (i32::MAX as i64 * 15 % 1440) as i32;
    assert_eq!(Steps::time_of_day(&Steps(i32::MAX)), Minutes(expected));
    let expected_min = (i32::MIN as i64 * 15 % 1440) as i32;
    assert_eq!(Steps::time_of_day(&Steps(i32::MIN)), Minutes(expected_min));
}

#[test]
fn a_step_is_fifteen_minutes_and_a_day_has_ninety_six() {
    assert_eq!(Steps::minutes_per_step(), Minutes(15));
    assert_eq!(Steps::steps_per_day(), Steps(96));
}

#[test]
fn steps_from_minutes_round_toward_zero() {
    assert_eq!(Steps::from(Minutes(0)), Steps(0));
    assert_eq!(Steps::from(Minutes(14)), Steps(0));
    assert_eq!(Steps::from(Minutes(15)), Steps(1));
    assert_eq!(Steps::from(Minutes(44)), Steps(2));
    assert_eq!(Steps::from(Minutes(-14)), Steps(0));
    assert_eq!(Steps::from(Minutes(-16)), Steps(-1));
    assert_eq!(Steps::from(Minutes(i32::MIN)), Steps(i32::MIN / 15));
    assert_eq!(Steps::from(Minutes(i32::MAX)), Steps(i32::MAX / 15));
}

#[test]
fn units_are_made_from_plain_numbers() {
    assert_eq!(Watt::from(100), Watt(100));
    assert_eq!(mHz::from(50_000), mHz(50_000));
    assert_eq!(mVolt::from(230_000), mVolt(230_000));
    assert_eq!(Steps::from(7), Steps(7));
    assert_eq!(Minutes::from(7), Minutes(7));
}

#[test]
fn units_are_ordered_by_their_value() {
    assert!(Watt(1) < Watt(2));
    assert!(mHz(49_000) < mHz(50_000));
    assert!(mVolt(-1) < mVolt(0));
    assert!(Steps(3) > Steps(2));
}
