use smartgrid_iot_security::agent::{AgentKind, AgentRef};
use smartgrid_iot_security::grid::{
    Boundaries, BoundaryBand, GridBoundaryState, InfectionState, InfectionStatistics, NormalBand,
    PowerGeneration, PowerState, ProfilePoint, ReservePower,
};
use smartgrid_iot_security::model::{
    GridInformation, Model, ModelParameters, StepAction, StepEvent, StepPhase, StepRun,
};
use smartgrid_iot_security::util::{mHz, mVolt, ModelError, Steps, Watt};

fn profile(seed: i64, with_generation: bool) -> Vec<ProfilePoint> {
    (0..96)
        .map(|slot| ProfilePoint {
            generated: Watt(if with_generation { (slot * 7 + seed) % 400 } else { 0 }),
            used: Watt(500 + (slot * 13 + seed * 3) % 900),
        })
        .collect()
}

fn unit(seed: i64) -> PowerGeneration {
    if seed % 2 == 0 {
        PowerGeneration::new_pv(None, true, Watt(3000 + seed), profile(seed, true)).unwrap()
    } else {
        PowerGeneration::new_no_pv(None, Watt(3000 + seed), profile(seed, false)).unwrap()
    }
}

/// One area with two netstations of two households each.
fn small_layout() -> Vec<Vec<Vec<PowerGeneration>>> {
    vec![vec![vec![unit(0), unit(1)], vec![unit(2), unit(3)]]]
}

/// Two areas: the first with a netstation of three households and one without
/// any, the second without netstations.
fn uneven_layout() -> Vec<Vec<Vec<PowerGeneration>>> {
    vec![vec![vec![unit(0), unit(2), unit(4)], vec![]], vec![]]
}

fn test_model() -> Model {
    Model::new(ModelParameters::test(), &small_layout()).unwrap()
}

/// Takes one tick with the given rolls. An attacked household shows half of
/// what it generates and twice what it reports, and the voltage follows the
/// power error of its netstation.
fn tick(model: &mut Model, step: i32, rolls: &Vec<(bool, bool)>) -> GridInformation {
    model.update_step(Steps(step));
    model.new_power_state();
    model.attack_and_patch(Steps(step), rolls);
    let falsified: Vec<(Watt, Watt)> = model
        .households
        .iter()
        .map(|h| (Watt(h.powerstate.power_generated.0 / 2), Watt(h.powerstate.power_reported.0 * 2)))
        .collect();
    model.modify_infected_devices(&falsified).unwrap();
    model.power_state_from_children().unwrap();
    model.grid_frequency_compensation();
    let volts: Vec<mVolt> = model
        .netstations
        .iter()
        .map(|n| mVolt(n.volt_state.now.0 + (n.powerstate.power_error.0 / 10) as i32))
        .collect();
    model.power_mismatch_impact(&volts);
    model.boundary_check();
    model.grid_information()
}

fn no_rolls(model: &Model) -> Vec<(bool, bool)> {
    vec![(false, false); model.households.len()]
}

fn summed(states: &[&PowerState]) -> PowerState {
    let mut total = PowerState::new();
    for state in states {
        total.manual_add(state);
    }
    total
}

#[test]
fn getting_children() {
    let model = test_model();
    assert_eq!(model.graph.get_children(&0).expect("Couldnt get children"), vec![1]);
    assert_eq!(model.graph.get_children(&1).expect("Couldnt get children"), vec![2, 5]);
    assert_eq!(model.graph.get_children(&2).expect("Couldnt get children"), vec![3, 4]);
    assert_eq!(model.graph.get_children(&5).expect("Couldnt get children"), vec![6, 7]);
}

/// Takes the model through the given number of steps with `Model::step`. No
/// household is patched or infected, and the voltages stay where they are.
/// Gives the usage of the reserve before the last tick.
fn run_clean(model: &mut Model, steps: i32) -> Watt {
    let mut run = StepRun::new(Steps(steps));
    let mut event = StepEvent::Go;
    let mut usage_before_last_tick = model.reserve_power.current_usage;
    loop {
        if run.phase == StepPhase::UpdateStep {
            usage_before_last_tick = model.reserve_power.current_usage;
        }
        event = match model.step(&mut run, event).expect("Error in taking steps") {
            StepAction::DrawRolls => StepEvent::Rolls(no_rolls(model)),
            StepAction::Falsify(_) => {
                StepEvent::Falsified(vec![(Watt(0), Watt(0)); model.households.len()])
            }
            StepAction::MeasureVoltages => {
                StepEvent::Voltages(model.netstations.iter().map(|n| n.volt_state.now).collect())
            }
            StepAction::Done => return usage_before_last_tick,
            _ => StepEvent::Go,
        };
    }
}

#[test]
fn grid_power_sum_clean() {
    let mut model = test_model();
    let usage_before_last_tick = run_clean(&mut model, 96);
    let compensated = model.reserve_power.current_usage.0 - usage_before_last_tick.0;

    let agent0 = &model.root.powerstate;
    let agent1 = &model.areas[0].powerstate;
    let agent2 = &model.netstations[0].powerstate;
    let agent3 = &model.households[0].powerstate;
    let agent4 = &model.households[1].powerstate;
    let agent5 = &model.netstations[1].powerstate;
    let agent6 = &model.households[2].powerstate;
    let agent7 = &model.households[3].powerstate;

    let mut comp1 = PowerState::new();
    let mut comp2 = PowerState::new();
    let mut comp3 = PowerState::new();
    comp1.manual_add(agent3);
    comp1.manual_add(agent4);
    comp2.manual_add(agent6);
    comp2.manual_add(agent7);
    comp3.manual_add(agent2);
    comp3.manual_add(agent5);

    assert_eq!(*agent2, comp1);
    assert_eq!(*agent5, comp2);
    assert_eq!(*agent1, comp3);
    assert_eq!(*agent0, *agent1);
    // the root shows what its area shows, but for the share of the power
    // error that the reserve has taken in this tick: the reserve is used up
    // by now and takes nothing
    assert_eq!(agent0.power_error, Watt(agent1.power_error.0 - compensated));
    assert_eq!(compensated, 0);
    assert_eq!(model.reserve_power.current_usage, Watt(10_000));
    assert_ne!(*agent0, PowerState::new());
    // step 95: the units with generation terms generate, the others do not
    assert_eq!(agent3.power_generated, Watt(95 * 7 % 400));
    assert_eq!(agent4.power_generated, Watt(0));
    assert_eq!(agent4.power_error, agent4.power_used);
    assert_eq!(agent3.power_error, Watt(agent3.power_used.0 - agent3.power_generated.0));
    assert_eq!(model.root.step, Steps(95));
}

#[test]
fn agents_get_their_indices_in_the_order_of_creation() {
    let model = test_model();
    let kinds: Vec<AgentKind> = model.agents.iter().map(|entry| entry.kind).collect();
    assert_eq!(
        kinds,
        vec![
            AgentKind::Root,
            AgentKind::Area,
            AgentKind::Netstation,
            AgentKind::Household,
            AgentKind::Household,
            AgentKind::Netstation,
            AgentKind::Household,
            AgentKind::Household,
        ]
    );
    assert_eq!(model.root.index, 0);
    assert_eq!(model.areas.iter().map(|a| a.index).collect::<Vec<_>>(), vec![1]);
    assert_eq!(model.netstations.iter().map(|n| n.index).collect::<Vec<_>>(), vec![2, 5]);
    assert_eq!(model.households.iter().map(|h| h.index).collect::<Vec<_>>(), vec![3, 4, 6, 7]);
    assert_eq!(model.agents[5], AgentRef { kind: AgentKind::Netstation, position: 1 });
    assert_eq!(model.agents[6], AgentRef { kind: AgentKind::Household, position: 2 });
}

#[test]
fn agents_get_their_children_from_the_edges() {
    let model = test_model();
    assert_eq!(model.root.children, vec![1]);
    assert_eq!(model.areas[0].children, vec![2, 5]);
    assert_eq!(model.netstations[0].children, vec![3, 4]);
    assert_eq!(model.netstations[1].children, vec![6, 7]);
    assert!(model.households.iter().all(|h| h.children.is_empty()));
}

#[test]
fn an_uneven_layout_is_numbered_in_the_order_of_creation() {
    let model = Model::new(ModelParameters::test(), &uneven_layout()).unwrap();
    assert_eq!(model.agents.len(), 8);
    assert_eq!(model.root.children, vec![1, 7]);
    assert_eq!(model.areas[0].children, vec![2, 6]);
    assert_eq!(model.areas[1].children, Vec::<u32>::new());
    assert_eq!(model.netstations[0].children, vec![3, 4, 5]);
    assert_eq!(model.netstations[1].children, Vec::<u32>::new());
    assert_eq!(model.areas[1].index, 7);
    assert_eq!(model.netstations[1].index, 6);
}

#[test]
fn a_grid_without_areas_is_a_root_alone() {
    let layout: Vec<Vec<Vec<PowerGeneration>>> = vec![];
    let mut model = Model::new(ModelParameters::test(), &layout).unwrap();
    assert_eq!(model.agents, vec![AgentRef { kind: AgentKind::Root, position: 0 }]);
    assert!(model.root.children.is_empty());
    let info = tick(&mut model, 0, &vec![]);
    assert_eq!(info.power_state, PowerState::new());
    assert_eq!(info.infection_statistics, InfectionStatistics::default());
    assert_eq!(info.freq_state.now, mHz(50_000));
}

#[test]
fn a_new_model_starts_at_rest() {
    let model = test_model();
    assert_eq!(
        model.reserve_power,
        ReservePower {
            lower_limit: Watt(-10_000),
            upper_limit: Watt(10_000),
            current_usage: Watt(0),
            watt_per_step: Watt(100),
        }
    );
    assert_eq!(model.root.freq_state.now, mHz(50_000));
    assert!(model.netstations.iter().all(|n| n.volt_state.now == mVolt(230_000)));
    assert!(model.households.iter().all(|h| h.step == Steps(0)));
    assert_eq!(model.root.powerstate, PowerState::new());
    assert_eq!(model.households[2].power_generation.average_power_usage, Watt(3002));
    assert_eq!(model.households[3].power_generation.day_profile, profile(3, false));
}

#[test]
fn a_negative_storage_or_rate_is_a_parameter_error() {
    let mut param = ModelParameters::test();
    param.grid.energy_storage = Watt(-1);
    match Model::new(param, &small_layout()) {
        Err(error) => assert_eq!(
            error.message(),
            "ParamError: grid - the energy storage and the generation per tick must not be negative"
        ),
        Ok(_) => panic!("a model was built with a negative storage"),
    }
    // a negative storage is told before a bad profile
    let mut param = ModelParameters::test();
    param.grid.energy_storage = Watt(-1);
    let mut layout = small_layout();
    layout[0][0][0].day_profile.pop();
    match Model::new(param, &layout) {
        Err(ModelError::ParamError { context, .. }) => assert_eq!(context, "grid"),
        _ => panic!("expected a parameter error about the grid"),
    }
    let mut param = ModelParameters::test();
    param.grid.max_gen_inc_tick = Watt(-1);
    assert!(matches!(Model::new(param, &small_layout()), Err(ModelError::ParamError { .. })));
    let mut param = ModelParameters::test();
    param.grid.energy_storage = Watt(0);
    param.grid.max_gen_inc_tick = Watt(0);
    assert!(Model::new(param, &small_layout()).is_ok());
}

#[test]
fn a_unit_with_a_bad_profile_is_a_parameter_error() {
    let mut layout = small_layout();
    layout[0][1][0].day_profile.pop();
    match Model::new(ModelParameters::test(), &layout) {
        Err(error) => {
            assert!(matches!(error, ModelError::ParamError { .. }));
            assert_eq!(
                error.message(),
                "ParamError: power generation - the daily profile needs one point per tick of the day, each within the watt range"
            );
        }
        Ok(_) => panic!("a model was built from a bad profile"),
    }
}

#[test]
fn update_step_stamps_every_agent() {
    let mut model = test_model();
    model.update_step(Steps(17));
    assert_eq!(model.root.step, Steps(17));
    assert!(model.areas.iter().all(|a| a.step == Steps(17)));
    assert!(model.netstations.iter().all(|n| n.step == Steps(17)));
    assert!(model.households.iter().all(|h| h.step == Steps(17)));
    assert_eq!(model.root.children, vec![1]);
}

#[test]
fn the_root_shows_the_sums_less_what_the_reserve_takes() {
    let mut model = test_model();
    let usage_before_last_tick = run_clean(&mut model, 3);
    assert_eq!(usage_before_last_tick, Watt(200));
    assert_eq!(model.reserve_power.current_usage, Watt(300));
    let root = &model.root.powerstate;
    let area = &model.areas[0].powerstate;
    assert_eq!(root.power_used, area.power_used);
    assert_eq!(root.power_reported, area.power_reported);
    assert_eq!(root.power_generated, area.power_generated);
    assert_eq!(root.power_error, Watt(area.power_error.0 - 100));
    let mut sum = PowerState::new();
    for household in &model.households {
        sum.manual_add(&household.powerstate);
    }
    assert_eq!(area.power_used, sum.power_used);
    assert_eq!(area.power_error, sum.power_error);
    assert_eq!(area.power_error, Watt(sum.power_used.0 - sum.power_generated.0));
}

#[test]
fn a_tick_without_infection_shows_the_net_draw_as_error() {
    let mut model = test_model();
    let rolls = no_rolls(&model);
    let info = tick(&mut model, 5, &rolls);
    // slot 5: generated (35 + 0) % 400 and (35 + 2) % 400 for the two pv units
    assert_eq!(info.power_state.power_generated, Watt(35 + 37));
    // used 500 + (65 + 3 * seed) % 900 for seeds 0..4
    assert_eq!(info.power_state.power_used, Watt(565 + 568 + 571 + 574));
    assert_eq!(info.power_state.power_reported, Watt(565 + 568 + 571 + 574 - 72));
    // every household shows used - generated as its error
    assert_eq!(
        model.households.iter().map(|h| h.powerstate.power_error).collect::<Vec<_>>(),
        vec![Watt(530), Watt(568), Watt(534), Watt(574)]
    );
    assert_eq!(model.areas[0].powerstate.power_error, Watt(2206));
    // the reserve takes 100 W of the error of the root
    assert_eq!(info.power_state.power_error, Watt(2106));
    assert_eq!(info.reserve_power.current_usage, Watt(100));
    // frequency: 50000 + 50000 * 2106 / (2278 + 10000), rounded toward zero
    assert_eq!(info.freq_state.now, mHz(58_576));
    assert_eq!(info.freq_state.history, vec![mHz(50_000)]);
    assert_eq!(
        info.infection_statistics,
        InfectionStatistics {
            total: 4,
            num_not_vulnerable: 2,
            num_vulnerable: 2,
            num_infected: 0,
            num_patched: 0,
        }
    );
}

#[test]
fn an_attack_shows_in_the_sums_and_the_reserve_takes_its_share() {
    let mut model = test_model();
    // the first household (a vulnerable pv unit) is infected at a step with an active attack
    let rolls = vec![(false, true), (false, true), (false, false), (false, false)];
    let info = tick(&mut model, 10, &rolls);
    assert_eq!(model.param.attack.current_attack.map(|b| b.begin), Some(Steps(10)));
    assert_eq!(
        model.households.iter().map(|h| h.power_generation.infection_state).collect::<Vec<_>>(),
        vec![
            InfectionState::Infected,
            InfectionState::NotVulnerable,
            InfectionState::Vulnerable,
            InfectionState::NotVulnerable,
        ]
    );
    // slot 10, seed 0: generated 70, used 500 + 130 = 630, reported 560
    let attacked = &model.households[0].powerstate;
    assert_eq!(attacked.power_generated, Watt(35));
    assert_eq!(attacked.power_used, Watt(630));
    assert_eq!(attacked.power_reported, Watt(1120));
    assert_eq!(attacked.power_error, Watt(1120 - (630 - 35)));

    // the other households show used - generated: 633, 636 - 72 and 639
    assert_eq!(model.households[1].powerstate.power_error, Watt(633));
    assert_eq!(model.households[2].powerstate.power_error, Watt(564));
    assert_eq!(model.households[3].powerstate.power_error, Watt(639));
    let error = 1120 - (630 - 35) + 633 + 564 + 639;
    assert_eq!(model.netstations[0].powerstate.power_error, Watt(525 + 633));
    assert_eq!(model.netstations[1].powerstate.power_error, Watt(564 + 639));
    assert_eq!(model.areas[0].powerstate.power_error, Watt(error));
    // the reserve takes 100 W of the error of the root
    assert_eq!(info.reserve_power.current_usage, Watt(100));
    assert_eq!(info.power_state.power_error, Watt(error - 100));
    assert_eq!(model.root.powerstate.power_used, model.areas[0].powerstate.power_used);
    assert_eq!(info.infection_statistics.num_infected, 1);

    // frequency: 50000 + 50000 * (error - 100) / (used + bulk)
    let used = info.power_state.power_used.0;
    let expected = 50_000 + (50_000i64 * (error - 100) / (used + 10_000)) as i32;
    assert_eq!(info.freq_state.now, mHz(expected));
    // voltage follows the error of the netstation
    assert_eq!(model.netstations[0].volt_state.now, mVolt(230_000 + 115));
    assert_eq!(model.netstations[0].volt_state.history, vec![mVolt(230_000)]);
    assert_eq!(model.netstations[1].volt_state.now, mVolt(230_000 + 120));
}

#[test]
fn every_level_shows_the_sum_of_its_children_after_many_ticks() {
    let mut model = Model::new(ModelParameters::test(), &uneven_layout()).unwrap();
    for step in 0..200 {
        let rolls: Vec<(bool, bool)> =
            (0..3).map(|h| ((step + h) % 37 == 0, (step * 3 + h) % 11 == 0)).collect();
        tick(&mut model, step, &rolls);
        let households: Vec<&PowerState> = model.households.iter().map(|h| &h.powerstate).collect();
        assert_eq!(model.netstations[0].powerstate, summed(&households));
        // a netstation and an area without children keep what they had: nothing
        assert_eq!(model.netstations[1].powerstate, PowerState::new());
        assert_eq!(model.areas[1].powerstate, PowerState::new());
        assert_eq!(
            model.areas[0].powerstate,
            summed(&[&model.netstations[0].powerstate, &model.netstations[1].powerstate])
        );
        let areas = summed(&[&model.areas[0].powerstate, &model.areas[1].powerstate]);
        assert_eq!(model.root.powerstate.power_used, areas.power_used);
        assert_eq!(model.root.powerstate.power_generated, areas.power_generated);
        assert_eq!(model.root.powerstate.power_reported, areas.power_reported);
        assert!(model.reserve_power.current_usage.0.abs() <= 10_000);
    }
}

#[test]
fn two_runs_with_the_same_rolls_give_the_same_summaries() {
    let run = || {
        let mut model = test_model();
        let mut summaries = vec![];
        for step in 0..150 {
            let rolls: Vec<(bool, bool)> =
                (0..4).map(|h| ((step * 5 + h) % 41 == 0, (step + 2 * h) % 7 == 0)).collect();
            summaries.push(tick(&mut model, step, &rolls));
        }
        summaries
    };
    let first = run();
    let second = run();
    assert_eq!(first.len(), second.len());
    for (a, b) in first.iter().zip(second.iter()) {
        assert_eq!(a.infection_statistics, b.infection_statistics);
        assert_eq!(a.freq_state.now, b.freq_state.now);
        assert_eq!(a.freq_state.history, b.freq_state.history);
        assert_eq!(a.power_state, b.power_state);
        assert_eq!(a.reserve_power, b.reserve_power);
    }
    assert!(first.iter().any(|info| info.infection_statistics.num_infected > 0));
    assert!(first.iter().any(|info| info.infection_statistics.num_patched > 0));
}

#[test]
fn sums_beyond_the_watt_range_are_a_parameter_error() {
    let mut model = test_model();
    model.households[0].powerstate.power_used = Watt(i64::MAX);
    model.households[1].powerstate.power_used = Watt(1);
    match model.power_state_from_children() {
        Err(error) => {
            assert!(matches!(error, ModelError::ParamError { .. }));
            assert_eq!(
                error.message(),
                "ParamError: netstation - the sum of the power figures of the children leaves the watt range"
            );
        }
        Ok(()) => panic!("a sum beyond the range was taken"),
    }
    assert_eq!(model.netstations[0].powerstate, PowerState::new());

    let mut model = test_model();
    model.households[0].powerstate.power_used = Watt(i64::MAX);
    model.households[2].powerstate.power_used = Watt(1);
    let error = model.power_state_from_children().unwrap_err();
    assert_eq!(
        error.message(),
        "ParamError: area - the sum of the power figures of the children leaves the watt range"
    );
    assert_eq!(model.netstations[0].powerstate.power_used, Watt(i64::MAX));
    assert_eq!(model.areas[0].powerstate, PowerState::new());

    let mut model = Model::new(ModelParameters::test(), &uneven_layout()).unwrap();
    model.areas[0].powerstate.power_used = Watt(i64::MAX);
    model.areas[1].powerstate.power_used = Watt(1);
    model.households[0].powerstate.power_used = Watt(i64::MAX);
    let error = model.power_state_from_children().unwrap_err();
    assert_eq!(
        error.message(),
        "ParamError: root - the sum of the power figures of the children leaves the watt range"
    );
    assert_eq!(model.areas[0].powerstate.power_used, Watt(i64::MAX));
    assert_eq!(model.root.powerstate, PowerState::new());
}

fn monitored_param(stop: bool) -> ModelParameters {
    let mut param = ModelParameters::test();
    param.stop_on_freq_error = stop;
    param.grid.volt_boundary = Boundaries {
        state: GridBoundaryState::Normal,
        normalband: NormalBand { lower: mVolt(225_000), higher: mVolt(235_000) },
        lowerbands: vec![BoundaryBand {
            border: mVolt(220_000),
            max_time_allowed: Steps(3),
            time_passed: Steps(0),
        }],
        upperbands: vec![],
    };
    param.grid.freq_boundary = Boundaries {
        state: GridBoundaryState::Normal,
        normalband: NormalBand { lower: mHz(49_800), higher: mHz(50_200) },
        lowerbands: vec![],
        upperbands: vec![BoundaryBand {
            border: mHz(50_500),
            max_time_allowed: Steps(0),
            time_passed: Steps(0),
        }],
    };
    param
}

#[test]
fn a_netstation_at_low_voltage_warns_then_errs_once() {
    let mut model = Model::new(monitored_param(false), &small_layout()).unwrap();
    let mut seen = vec![];
    for _ in 0..5 {
        model.power_mismatch_impact(&vec![mVolt(218_000), mVolt(230_000)]);
        let report = model.boundary_check();
        assert!(report.frequency.is_none());
        assert!(!report.need_to_stop);
        assert!(report.outcome().is_ok());
        seen.push((
            report.voltage_warnings.iter().map(|w| (w.state, w.agent_index)).collect::<Vec<_>>(),
            report.voltage_errors.iter().map(|w| (w.state, w.agent_index)).collect::<Vec<_>>(),
        ));
    }
    assert_eq!(
        seen,
        vec![
            (vec![(GridBoundaryState::Low, Some(2))], vec![]),
            (vec![], vec![]),
            (vec![], vec![]),
            (vec![], vec![(GridBoundaryState::TooLow, Some(2))]),
            (vec![], vec![]),
        ]
    );
    assert_eq!(model.netstations[0].volt_boundary.state, GridBoundaryState::TooLow);
    assert_eq!(model.netstations[1].volt_boundary.state, GridBoundaryState::Normal);
}

#[test]
fn a_warning_of_a_netstation_tells_about_the_netstation() {
    let mut model = Model::new(monitored_param(false), &small_layout()).unwrap();
    let rolls = vec![(false, false), (false, false), (false, true), (false, false)];
    model.update_step(Steps(10));
    model.new_power_state();
    model.attack_and_patch(Steps(10), &rolls);
    model.power_state_from_children().unwrap();
    model.power_mismatch_impact(&vec![mVolt(230_000), mVolt(219_000)]);
    let report = model.boundary_check();
    assert_eq!(report.voltage_errors.len(), 0);
    assert_eq!(report.voltage_warnings.len(), 1);
    let warning = &report.voltage_warnings[0];
    assert_eq!(warning.state, GridBoundaryState::Low);
    assert!(!warning.critical);
    assert_eq!(warning.agent_index, Some(5));
    assert_eq!(warning.agent_powerstate.as_ref(), Some(&model.netstations[1].powerstate));
    assert_eq!(warning.volt_state.as_ref().map(|v| v.now), Some(mVolt(219_000)));
    assert_eq!(
        warning.volt_state.as_ref().map(|v| v.history.clone()),
        Some(vec![mVolt(230_000)])
    );
    assert!(warning.freq_state.is_none());
    assert_eq!(
        warning.infectionstatistics,
        Some(InfectionStatistics {
            total: 2,
            num_not_vulnerable: 1,
            num_vulnerable: 0,
            num_infected: 1,
            num_patched: 0,
        })
    );
}

#[test]
fn a_critical_frequency_stops_the_run_only_if_asked_to() {
    for stop in [false, true] {
        let mut model = Model::new(monitored_param(stop), &small_layout()).unwrap();
        // a large surplus in the report raises the frequency beyond the upper border
        model.root.powerstate.power_used = Watt(1000);
        model.root.powerstate.power_error = Watt(1000);
        model.power_mismatch_impact(&vec![mVolt(230_000), mVolt(230_000)]);
        assert_eq!(model.root.freq_state.now, mHz(50_000 + 50_000 * 1000 / 11_000));
        let report = model.boundary_check();
        let warning = report.frequency.as_ref().expect("the frequency is out of its band");
        assert_eq!(warning.state, GridBoundaryState::TooHigh);
        assert!(warning.critical);
        assert_eq!(warning.agent_index, Some(0));
        assert_eq!(warning.freq_state.as_ref().map(|f| f.now), Some(model.root.freq_state.now));
        assert!(warning.volt_state.is_none());
        assert!(warning.infectionstatistics.is_none());
        assert_eq!(report.need_to_stop, stop);
        match report.outcome() {
            Err(error) => {
                assert!(stop);
                assert!(error.is_stop_signal());
                assert_eq!(error.message(), "NeedToStop");
            }
            Ok(()) => assert!(!stop),
        }
    }
}

#[test]
fn a_frequency_warning_that_is_not_critical_does_not_stop_the_run() {
    let mut param = monitored_param(true);
    param.grid.freq_boundary.upperbands[0].max_time_allowed = Steps(5);
    let mut model = Model::new(param, &small_layout()).unwrap();
    model.root.powerstate.power_used = Watt(1000);
    model.root.powerstate.power_error = Watt(1000);
    model.power_mismatch_impact(&vec![mVolt(230_000), mVolt(230_000)]);
    let report = model.boundary_check();
    assert_eq!(report.frequency.as_ref().map(|w| (w.state, w.critical)), Some((GridBoundaryState::High, false)));
    assert!(!report.need_to_stop);
    assert!(report.outcome().is_ok());
}

#[test]
fn update_history_puts_the_figures_of_every_agent_on_record() {
    let mut model = test_model();
    for step in 0..12 {
        let rolls = no_rolls(&model);
        tick(&mut model, step, &rolls);
        model.update_history();
    }
    assert_eq!(model.root.powerstate.history_power_used.len(), 10);
    assert_eq!(model.areas[0].powerstate.history_power_generated.len(), 10);
    assert_eq!(model.netstations[1].powerstate.history_power_error.len(), 10);
    assert_eq!(model.households[3].powerstate.history_power_reported.len(), 10);
    assert_eq!(
        model.households[0].powerstate.history_power_used.last(),
        Some(&model.households[0].powerstate.power_used)
    );
    assert_eq!(model.households[0].powerstate.history_power_used[0], Watt(500 + 26));
}

#[test]
fn subagent_lists_the_indices_of_a_kind() {
    let model = test_model();
    assert_eq!(Model::subagent(AgentKind::Root, &model.agents), vec![0]);
    assert_eq!(Model::subagent(AgentKind::Area, &model.agents), vec![1]);
    assert_eq!(Model::subagent(AgentKind::Netstation, &model.agents), vec![2, 5]);
    assert_eq!(Model::subagent(AgentKind::Household, &model.agents), vec![3, 4, 6, 7]);
    assert_eq!(Model::subagent(AgentKind::Connection, &model.agents), Vec::<u32>::new());
}

#[test]
fn the_infection_states_come_in_the_order_of_the_households() {
    let mut model = test_model();
    model.attack_and_patch(Steps(0), &vec![(true, false), (false, false), (false, true), (true, true)]);
    assert_eq!(
        model.infection_states(),
        vec![
            InfectionState::Patched,
            InfectionState::NotVulnerable,
            InfectionState::Infected,
            InfectionState::NotVulnerable,
        ]
    );
}

#[test]
fn the_messages_of_the_errors_name_their_kind() {
    assert_eq!(ModelError::NeedToStop.message(), "NeedToStop");
    assert!(ModelError::NeedToStop.is_stop_signal());
    assert_eq!(
        ModelError::GraphError("no root".to_string()).message(),
        "Something went wrong with the graph: no root"
    );
    assert_eq!(
        ModelError::InfectionError("overflow".to_string()).message(),
        "Attack had an error during Infection: overflow"
    );
    let error = ModelError::ParamError { msg: "too small".to_string(), context: "grid".to_string() };
    assert_eq!(error.message(), "ParamError: grid - too small");
    assert!(!error.is_stop_signal());
}

#[test]
fn the_test_parameters_are_those_of_a_year() {
    let param = ModelParameters::test();
    assert_eq!(param.name, "Test");
    assert_eq!(param.steps, Steps(96 * 365));
    assert!(!param.enable_output);
    assert!(!param.stop_on_freq_error);
    assert_eq!(param.grid.bulk_consumption, Watt(10_000));
    assert_eq!(param.attack.attack_behaviour.len(), 1);
    assert_eq!(param.attack.attack_behaviour[0].end, Steps(100));
}
