use smartgrid_iot_security::agent::{AgentKind, AgentTrait, Household};
use smartgrid_iot_security::grid::{
    check_profile, InfectionState, PowerGeneration, PowerState, ProfilePoint,
};
use smartgrid_iot_security::util::{ModelError, Steps, Watt};

fn ramp_profile() -> Vec<ProfilePoint> {
    (0..96)
        .map(|slot| ProfilePoint { generated: Watt(slot * 10), used: Watt(1000 + slot) })
        .collect()
}

#[test]
fn a_unit_without_generation_terms_generates_nothing_at_any_tick() {
    let unit = PowerGeneration::new_no_pv(Some(3), Watt(2500), ramp_profile()).unwrap();
    for tick in [0, 1, 17, 95, 96, 97, 1000, 35_040, i32::MAX] {
        let (generated, used, error) = unit.calc_power(&Steps(tick));
        assert_eq!(generated, Watt(0));
        assert_eq!(error, used);
        assert_eq!(used, Watt(1000 + (tick % 96) as i64));
    }
}

#[test]
fn a_unit_with_generation_follows_its_profile_day_after_day() {
    let unit = PowerGeneration::new_pv(None, false, Watt(2500), ramp_profile()).unwrap();
    assert_eq!(unit.calc_power(&Steps(0)), (Watt(0), Watt(1000), Watt(1000)));
    assert_eq!(unit.calc_power(&Steps(5)), (Watt(50), Watt(1005), Watt(955)));
    assert_eq!(unit.calc_power(&Steps(95)), (Watt(950), Watt(1095), Watt(145)));
    assert_eq!(unit.calc_power(&Steps(96)), (Watt(0), Watt(1000), Watt(1000)));
    assert_eq!(unit.calc_power(&Steps(96 * 7 + 5)), (Watt(50), Watt(1005), Watt(955)));
}

#[test]
fn the_same_tick_gives_the_same_power_every_time() {
    let unit = PowerGeneration::new_pv(None, true, Watt(2500), ramp_profile()).unwrap();
    let first = unit.calc_power(&Steps(42));
    let second = unit.calc_power(&Steps(42));
    assert_eq!(first, second);
    assert_eq!(first, (Watt(420), Watt(1042), Watt(622)));
}

#[test]
fn before_the_first_tick_a_unit_is_idle() {
    let unit = PowerGeneration::new_pv(None, true, Watt(2500), ramp_profile()).unwrap();
    assert_eq!(unit.calc_power(&Steps(-1)), (Watt(0), Watt(0), Watt(0)));
    assert_eq!(unit.calc_power(&Steps(i32::MIN)), (Watt(0), Watt(0), Watt(0)));
}

#[test]
fn a_pv_unit_is_vulnerable_only_if_so_drawn() {
    let vulnerable = PowerGeneration::new_pv(None, true, Watt(1), ramp_profile()).unwrap();
    let immune = PowerGeneration::new_pv(None, false, Watt(1), ramp_profile()).unwrap();
    let consumer = PowerGeneration::new_no_pv(None, Watt(1), ramp_profile()).unwrap();
    assert_eq!(vulnerable.infection_state, InfectionState::Vulnerable);
    assert_eq!(immune.infection_state, InfectionState::NotVulnerable);
    assert_eq!(consumer.infection_state, InfectionState::NotVulnerable);
    assert!(vulnerable.has_generation && immune.has_generation && !consumer.has_generation);
    assert_eq!(vulnerable.average_power_usage, Watt(1));
    assert_eq!(vulnerable.index, None);
}

#[test]
fn a_profile_of_the_wrong_length_is_a_parameter_error() {
    let mut short = ramp_profile();
    short.pop();
    assert!(!check_profile(&short, true));
    match PowerGeneration::new_pv(None, true, Watt(1), short) {
        Err(ModelError::ParamError { .. }) => {}
        other => panic!("expected a parameter error, got {other:?}"),
    }
    assert!(matches!(
        PowerGeneration::new_no_pv(None, Watt(1), vec![]),
        Err(ModelError::ParamError { .. })
    ));
}

#[test]
fn a_profile_whose_net_draw_leaves_the_watt_range_is_a_parameter_error() {
    let mut profile = ramp_profile();
    profile[50] = ProfilePoint { generated: Watt(-1), used: Watt(i64::MAX) };
    assert!(!check_profile(&profile, true));
    assert!(matches!(
        PowerGeneration::new_pv(None, true, Watt(1), profile.clone()),
        Err(ModelError::ParamError { .. })
    ));
    // Without generation terms the generation curve does not count.
    assert!(check_profile(&profile, false));
    let consumer = PowerGeneration::new_no_pv(None, Watt(1), profile).unwrap();
    assert_eq!(consumer.calc_power(&Steps(50)), (Watt(0), Watt(i64::MAX), Watt(i64::MAX)));
}

#[test]
fn clean_power_gen_puts_the_figures_of_the_unit_in_place() {
    let unit = PowerGeneration::new_pv(None, true, Watt(2500), ramp_profile()).unwrap();
    let mut household = Household::new(9, unit);
    household.update_step(Steps(5));
    household.powerstate.power_error = Watt(77);
    household.clean_power_gen();
    assert_eq!(household.powerstate.power_generated, Watt(50));
    assert_eq!(household.powerstate.power_used, Watt(1005));
    assert_eq!(household.powerstate.power_reported, Watt(955));
    assert_eq!(household.powerstate.power_error, Watt(955));
}

#[test]
fn a_household_without_generation_terms_shows_what_it_uses_as_error() {
    let unit = PowerGeneration::new_no_pv(None, Watt(2500), ramp_profile()).unwrap();
    let mut household = Household::new(9, unit);
    for tick in [0, 5, 95, 96, 1000] {
        household.update_step(Steps(tick));
        household.clean_power_gen();
        assert_eq!(household.powerstate.power_generated, Watt(0));
        assert_eq!(household.powerstate.power_used, Watt(1000 + (tick % 96) as i64));
        assert_eq!(household.powerstate.power_error, household.powerstate.power_used);
        assert_eq!(household.powerstate.power_reported, household.powerstate.power_used);
    }
    assert_eq!(household.index, 9);
    assert_eq!(household.step, Steps(1000));
    assert!(household.children.is_empty());
    assert_eq!(household.power_generation.infection_state, InfectionState::NotVulnerable);
}

#[test]
fn a_new_household_is_a_leaf_at_step_zero() {
    let unit = PowerGeneration::new_no_pv(Some(4), Watt(2500), ramp_profile()).unwrap();
    let household = Household::new(4, unit);
    assert_eq!(*household.kind(), AgentKind::Household);
    assert_eq!(*household.index(), 4);
    assert_eq!(*household.step(), Steps(0));
    assert!(household.children().is_empty());
    assert_eq!(*household.powerstate(), PowerState::new());
    assert_eq!(household.power_generation().index, Some(4));
}

#[test]
fn a_clone_of_a_unit_has_the_same_curves() {
    let unit = PowerGeneration::new_pv(Some(1), true, Watt(2500), ramp_profile()).unwrap();
    let copy = unit.clone();
    assert_eq!(copy.day_profile, unit.day_profile);
    assert_eq!(copy.infection_state, unit.infection_state);
    assert_eq!(copy.calc_power(&Steps(33)), unit.calc_power(&Steps(33)));
}
