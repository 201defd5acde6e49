use smartgrid_iot_security::grid::{
    Boundaries, BoundaryBand, BoundaryUnitTrait, Deviation, Grid, GridBoundaryState,
    GridWarning, NormalBand,
};
use smartgrid_iot_security::util::{mHz, mVolt, Steps};
use std::cmp::Ordering;

fn volt_monitor() -> Boundaries<mVolt> {
    Boundaries {
        state: GridBoundaryState::Normal,
        normalband: NormalBand { lower: mVolt(225_000), higher: mVolt(235_000) },
        lowerbands: vec![BoundaryBand {
            border: mVolt(220_000),
            max_time_allowed: Steps(3),
            time_passed: Steps(0),
        }],
        upperbands: vec![BoundaryBand {
            border: mVolt(240_000),
            max_time_allowed: Steps(1),
            time_passed: Steps(0),
        }],
    }
}

fn state_of(warning: &Option<GridWarning>) -> Option<(GridBoundaryState, bool)> {
    warning.as_ref().map(|w| (w.state, w.critical))
}

#[test]
fn a_low_voltage_warns_once_then_turns_critical_once() {
    let mut monitor = volt_monitor();

    let first = monitor.update(mVolt(218_000));
    assert_eq!(state_of(&first), Some((GridBoundaryState::Low, false)));
    assert_eq!(monitor.state, GridBoundaryState::Low);
    assert_eq!(monitor.lowerbands[0].time_passed, Steps(1));

    let second = monitor.update(mVolt(218_000));
    assert_eq!(state_of(&second), None);
    assert_eq!(monitor.state, GridBoundaryState::Low);
    assert_eq!(monitor.lowerbands[0].time_passed, Steps(2));

    let third = monitor.update(mVolt(218_000));
    assert_eq!(state_of(&third), None);
    assert_eq!(monitor.state, GridBoundaryState::Low);
    assert_eq!(monitor.lowerbands[0].time_passed, Steps(3));

    let fourth = monitor.update(mVolt(218_000));
    assert_eq!(state_of(&fourth), Some((GridBoundaryState::TooLow, true)));
    assert_eq!(monitor.state, GridBoundaryState::TooLow);
    assert_eq!(monitor.lowerbands[0].time_passed, Steps(4));

    let fifth = monitor.update(mVolt(218_000));
    assert_eq!(state_of(&fifth), None);
    assert_eq!(monitor.state, GridBoundaryState::TooLow);
    assert_eq!(monitor.lowerbands[0].time_passed, Steps(5));
}

#[test]
fn a_bare_warning_tells_nothing_about_the_agent() {
    let mut monitor = volt_monitor();
    let warning = monitor.update(mVolt(218_000)).unwrap();
    assert_eq!(warning.agent_index, None);
    assert!(warning.agent_powerstate.is_none());
    assert!(warning.freq_state.is_none());
    assert!(warning.volt_state.is_none());
    assert!(warning.infectionstatistics.is_none());
}

#[test]
fn reentering_the_normal_band_resets_every_band() {
    let mut monitor = volt_monitor();
    for _ in 0..7 {
        monitor.update(mVolt(210_000));
    }
    monitor.update(mVolt(250_000));
    monitor.update(mVolt(250_000));
    assert_eq!(monitor.lowerbands[0].time_passed, Steps(7));
    assert_eq!(monitor.upperbands[0].time_passed, Steps(2));
    assert_eq!(monitor.state, GridBoundaryState::TooHigh);

    let back = monitor.update(mVolt(230_000));
    assert!(back.is_none());
    assert_eq!(monitor.state, GridBoundaryState::Normal);
    assert_eq!(monitor.lowerbands[0].time_passed, Steps(0));
    assert_eq!(monitor.upperbands[0].time_passed, Steps(0));
}

#[test]
fn the_limits_of_the_normal_band_are_normal() {
    let mut monitor = volt_monitor();
    assert!(monitor.update(mVolt(225_000)).is_none());
    assert!(monitor.update(mVolt(235_000)).is_none());
    assert_eq!(monitor.state, GridBoundaryState::Normal);
    assert_eq!(monitor.lowerbands[0].time_passed, Steps(0));
}

#[test]
fn below_the_normal_band_but_above_the_border_counts_nothing() {
    let mut monitor = volt_monitor();
    let warning = monitor.update(mVolt(222_000));
    assert_eq!(state_of(&warning), Some((GridBoundaryState::Low, false)));
    assert_eq!(monitor.lowerbands[0].time_passed, Steps(0));
    for _ in 0..10 {
        assert!(monitor.update(mVolt(222_000)).is_none());
    }
    assert_eq!(monitor.state, GridBoundaryState::Low);
    assert_eq!(monitor.lowerbands[0].time_passed, Steps(0));
}

#[test]
fn a_value_on_the_border_counts() {
    let mut monitor = volt_monitor();
    monitor.update(mVolt(220_000));
    assert_eq!(monitor.lowerbands[0].time_passed, Steps(1));
    monitor.update(mVolt(240_000));
    assert_eq!(monitor.upperbands[0].time_passed, Steps(1));
}

#[test]
fn a_high_voltage_warns_and_turns_critical() {
    let mut monitor = volt_monitor();
    assert_eq!(state_of(&monitor.update(mVolt(241_000))), Some((GridBoundaryState::High, false)));
    assert_eq!(
        state_of(&monitor.update(mVolt(241_000))),
        Some((GridBoundaryState::TooHigh, true))
    );
    assert_eq!(state_of(&monitor.update(mVolt(241_000))), None);
    assert_eq!(monitor.lowerbands[0].time_passed, Steps(0));
}

#[test]
fn the_time_past_a_border_is_kept_while_outside_the_normal_band() {
    let mut monitor = volt_monitor();
    monitor.update(mVolt(218_000));
    monitor.update(mVolt(218_000));
    monitor.update(mVolt(222_000));
    assert_eq!(monitor.lowerbands[0].time_passed, Steps(2));
    monitor.update(mVolt(218_000));
    monitor.update(mVolt(218_000));
    assert_eq!(monitor.state, GridBoundaryState::TooLow);
    assert_eq!(monitor.lowerbands[0].time_passed, Steps(4));
}

#[test]
fn a_change_from_critical_back_to_warning_is_not_made() {
    let mut monitor = volt_monitor();
    for _ in 0..4 {
        monitor.update(mVolt(218_000));
    }
    assert_eq!(monitor.state, GridBoundaryState::TooLow);
    assert!(monitor.update(mVolt(222_000)).is_none());
    assert_eq!(monitor.state, GridBoundaryState::TooLow);
}

#[test]
fn without_bands_on_a_side_nothing_is_raised_there() {
    let mut monitor: Boundaries<mHz> = Boundaries {
        state: GridBoundaryState::Normal,
        normalband: NormalBand { lower: mHz(49_800), higher: mHz(50_200) },
        lowerbands: vec![],
        upperbands: vec![],
    };
    assert!(monitor.update(mHz(40_000)).is_none());
    assert_eq!(monitor.state, GridBoundaryState::Normal);
    assert!(monitor.update(mHz(60_000)).is_none());
    assert_eq!(monitor.state, GridBoundaryState::Normal);
}

#[test]
fn several_bands_count_apart_and_the_worst_one_decides() {
    let mut monitor: Boundaries<mHz> = Boundaries {
        state: GridBoundaryState::Normal,
        normalband: NormalBand { lower: mHz(49_800), higher: mHz(50_200) },
        lowerbands: vec![
            BoundaryBand { border: mHz(49_500), max_time_allowed: Steps(5), time_passed: Steps(0) },
            BoundaryBand { border: mHz(49_000), max_time_allowed: Steps(0), time_passed: Steps(0) },
        ],
        upperbands: vec![],
    };
    assert_eq!(state_of(&monitor.update(mHz(49_400))), Some((GridBoundaryState::Low, false)));
    assert_eq!(monitor.lowerbands[0].time_passed, Steps(1));
    assert_eq!(monitor.lowerbands[1].time_passed, Steps(0));
    assert_eq!(state_of(&monitor.update(mHz(48_900))), Some((GridBoundaryState::TooLow, true)));
    assert_eq!(monitor.lowerbands[0].time_passed, Steps(2));
    assert_eq!(monitor.lowerbands[1].time_passed, Steps(1));
}

#[test]
fn compare_tells_the_side_of_the_normal_band() {
    let band = NormalBand { lower: mHz(49_800), higher: mHz(50_200) };
    assert_eq!(band.compare(mHz(49_799)), Ordering::Less);
    assert_eq!(band.compare(mHz(49_800)), Ordering::Equal);
    assert_eq!(band.compare(mHz(50_000)), Ordering::Equal);
    assert_eq!(band.compare(mHz(50_200)), Ordering::Equal);
    assert_eq!(band.compare(mHz(50_201)), Ordering::Greater);
}

#[test]
fn compare_with_a_band_that_is_upside_down_says_less_first() {
    let band = NormalBand { lower: mHz(10), higher: mHz(0) };
    assert_eq!(band.compare(mHz(5)), Ordering::Less);
    assert_eq!(band.compare(mHz(20)), Ordering::Greater);
}

#[test]
fn check_counts_a_step_on_the_side_it_is_asked_for() {
    let mut band =
        BoundaryBand { border: mVolt(220_000), max_time_allowed: Steps(1), time_passed: Steps(0) };
    assert_eq!(band.check(mVolt(219_000), Ordering::Less), GridBoundaryState::Low);
    assert_eq!(band.time_passed, Steps(1));
    assert_eq!(band.check(mVolt(221_000), Ordering::Less), GridBoundaryState::Low);
    assert_eq!(band.time_passed, Steps(1));
    assert_eq!(band.check(mVolt(220_000), Ordering::Less), GridBoundaryState::TooLow);
    assert_eq!(band.time_passed, Steps(2));

    let mut upper =
        BoundaryBand { border: mVolt(240_000), max_time_allowed: Steps(0), time_passed: Steps(0) };
    assert_eq!(upper.check(mVolt(239_000), Ordering::Greater), GridBoundaryState::High);
    assert_eq!(upper.check(mVolt(241_000), Ordering::Greater), GridBoundaryState::TooHigh);
    assert_eq!(upper.time_passed, Steps(1));
}

#[test]
fn check_in_no_direction_counts_only_on_the_border() {
    let mut band =
        BoundaryBand { border: mVolt(220_000), max_time_allowed: Steps(0), time_passed: Steps(0) };
    assert_eq!(band.check(mVolt(219_000), Ordering::Equal), GridBoundaryState::High);
    assert_eq!(band.time_passed, Steps(0));
    assert_eq!(band.check(mVolt(220_000), Ordering::Equal), GridBoundaryState::TooHigh);
    assert_eq!(band.time_passed, Steps(1));
}

#[test]
fn advance_stops_counting_at_the_end_of_the_range() {
    let mut band = BoundaryBand {
        border: mVolt(0),
        max_time_allowed: Steps(3),
        time_passed: Steps(i32::MAX),
    };
    assert_eq!(band.advance(mVolt(-1), Deviation::Below), GridBoundaryState::TooLow);
    assert_eq!(band.time_passed, Steps(i32::MAX));
}

#[test]
fn the_value_of_a_unit_is_its_number() {
    assert_eq!(mHz(50_000).value(), 50_000);
    assert_eq!(mVolt(-3).value(), -3);
}

#[test]
fn the_critical_states_are_the_two_outermost() {
    assert!(GridBoundaryState::TooLow.is_critical());
    assert!(GridBoundaryState::TooHigh.is_critical());
    assert!(!GridBoundaryState::Low.is_critical());
    assert!(!GridBoundaryState::High.is_critical());
    assert!(!GridBoundaryState::Normal.is_critical());
    assert_eq!(GridBoundaryState::default(), GridBoundaryState::Normal);
}

#[test]
fn a_copy_of_a_monitor_has_the_same_bands() {
    let mut monitor = volt_monitor();
    monitor.update(mVolt(218_000));
    let copy = monitor.clone();
    assert_eq!(copy.state, GridBoundaryState::Low);
    assert_eq!(copy.normalband, monitor.normalband);
    assert_eq!(copy.lowerbands, monitor.lowerbands);
    assert_eq!(copy.upperbands, monitor.upperbands);
}

#[test]
fn the_monitors_of_an_agent_are_copies_of_those_of_the_grid() {
    let mut grid = Grid::_test();
    grid.volt_boundary = volt_monitor();
    grid.volt_boundary.update(mVolt(218_000));
    let volt = Boundaries::<mVolt>::from(&grid);
    assert_eq!(volt.state, GridBoundaryState::Low);
    assert_eq!(volt.normalband, grid.volt_boundary.normalband);
    assert_eq!(volt.lowerbands, grid.volt_boundary.lowerbands);
    assert_eq!(volt.upperbands, grid.volt_boundary.upperbands);
    let freq = Boundaries::<mHz>::from(&grid);
    assert_eq!(freq.state, GridBoundaryState::Normal);
    assert_eq!(freq.normalband, NormalBand { lower: mHz(0), higher: mHz(0) });
    assert!(freq.lowerbands.is_empty() && freq.upperbands.is_empty());
}
