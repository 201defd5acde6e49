use smartgrid_iot_security::grid::{FreqState, Grid, GridState, VoltState};
use smartgrid_iot_security::util::{mHz, mVolt, Watt};

fn test_create_freq_state() -> FreqState {
    FreqState { now: mHz(50_000), ..Default::default() }
}

#[test]
fn test_power_mismatch_no_bulk() {
    let fs = test_create_freq_state();
    let new = fs.power_mismatch(&100.into(), &10.into(), &0.into());
    assert_eq!(new, mHz(55000));

    let fs = test_create_freq_state();
    let new = fs.power_mismatch(&100.into(), &Watt(-10), &0.into());
    assert_eq!(new, mHz(45000));
}

#[test]
fn test_power_mismatch_bulk() {
    let fs = test_create_freq_state();
    let new = fs.power_mismatch(&100.into(), &10.into(), &1000.into());
    assert_eq!(new, mHz(50454));

    let fs = test_create_freq_state();
    let new = fs.power_mismatch(&100.into(), &Watt(-10), &1000.into());
    assert_eq!(new, mHz(49546));
}

#[test]
fn power_mismatch_without_error_keeps_the_frequency() {
    let fs = test_create_freq_state();
    assert_eq!(fs.power_mismatch(&Watt(100), &Watt(0), &Watt(1000)), mHz(50_000));
    assert_eq!(fs.power_mismatch(&Watt(0), &Watt(0), &Watt(0)), mHz(50_000));
}

#[test]
fn power_mismatch_without_load_goes_to_the_end_of_the_range() {
    let fs = test_create_freq_state();
    assert_eq!(fs.power_mismatch(&Watt(0), &Watt(5), &Watt(0)), mHz(i32::MAX));
    assert_eq!(fs.power_mismatch(&Watt(0), &Watt(-5), &Watt(0)), mHz(i32::MIN + 50_000));
    assert_eq!(fs.power_mismatch(&Watt(7), &Watt(-5), &Watt(-7)), mHz(i32::MIN + 50_000));
}

#[test]
fn power_mismatch_with_a_negative_load_turns_the_direction() {
    let fs = test_create_freq_state();
    assert_eq!(fs.power_mismatch(&Watt(-100), &Watt(10), &Watt(0)), mHz(45_000));
    assert_eq!(fs.power_mismatch(&Watt(-1100), &Watt(-10), &Watt(0)), mHz(50_454));
}

#[test]
fn power_mismatch_handles_the_largest_figures() {
    let fs = test_create_freq_state();
    assert_eq!(fs.power_mismatch(&Watt(1), &Watt(i64::MAX), &Watt(0)), mHz(i32::MAX));
    assert_eq!(fs.power_mismatch(&Watt(1), &Watt(i64::MIN), &Watt(0)), mHz(i32::MIN + 50_000));
    assert_eq!(
        fs.power_mismatch(&Watt(i64::MAX), &Watt(i64::MAX), &Watt(i64::MAX)),
        mHz(50_000 + 25_000)
    );
}

#[test]
fn frequency_update_keeps_a_bounded_history() {
    let mut fs = FreqState { now: mHz(0), history: vec![], history_len: 3 };
    for value in 1..=5 {
        fs.update(mHz(value));
    }
    assert_eq!(fs.now, mHz(5));
    assert_eq!(fs.history, vec![mHz(2), mHz(3), mHz(4)]);
}

#[test]
fn frequency_update_with_a_negative_limit_keeps_everything() {
    let mut fs = FreqState { now: mHz(0), history: vec![], history_len: -1 };
    for value in 1..=4 {
        fs.update(mHz(value));
    }
    assert_eq!(fs.history, vec![mHz(0), mHz(1), mHz(2), mHz(3)]);
}

#[test]
fn voltage_update_keeps_a_bounded_history() {
    let mut vs = VoltState { now: mVolt(230_000), history: vec![], history_len: 2 };
    vs.update(mVolt(229_000));
    vs.update(mVolt(228_000));
    vs.update(mVolt(227_000));
    assert_eq!(vs.now, mVolt(227_000));
    assert_eq!(vs.history, vec![mVolt(229_000), mVolt(228_000)]);
}

#[test]
fn voltage_update_with_no_room_keeps_no_history() {
    let mut vs = VoltState::default();
    vs.update(mVolt(1));
    vs.update(mVolt(2));
    assert_eq!(vs.now, mVolt(2));
    assert!(vs.history.is_empty());
}

#[test]
fn new_states_stand_at_the_nominal_values() {
    let grid = Grid::_test();
    let fs = FreqState::new(&grid);
    assert_eq!(fs.now, mHz(50_000));
    assert!(fs.history.is_empty());
    assert_eq!(fs.history_len, 10);
    let vs = VoltState::new(&grid);
    assert_eq!(vs.now, mVolt(230_000));
    assert!(vs.history.is_empty());
    assert_eq!(vs.history_len, 10);
}

#[test]
fn a_copy_of_a_state_has_the_same_history() {
    let mut fs = FreqState::new(&Grid::_test());
    fs.update(mHz(49_900));
    let copy = fs.clone();
    assert_eq!(copy.now, mHz(49_900));
    assert_eq!(copy.history, vec![mHz(50_000)]);
    assert_eq!(copy.history_len, 10);
}
