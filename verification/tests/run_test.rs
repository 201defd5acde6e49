use smartgrid_iot_security::agent::{AgentKind, AgentTrait, Area, Household, Netstation, Root};
use smartgrid_iot_security::grid::{
    Boundaries, BoundaryAgentTrait, BoundaryBand, Grid, GridBoundaryState, InfectionState,
    NormalBand, PowerGeneration, PowerState, ProfilePoint,
};
use smartgrid_iot_security::model::{
    GridInformation, Model, ModelParameters, StepAction, StepEvent, StepPhase, StepRun,
};
use smartgrid_iot_security::util::{mHz, mVolt, ModelError, Steps, Watt};

fn unit(seed: i64) -> PowerGeneration {
    let profile: Vec<ProfilePoint> = (0..96)
        .map(|slot| ProfilePoint {
            generated: Watt((slot * 7 + seed) % 400),
            used: Watt(500 + (slot * 13 + seed * 3) % 900),
        })
        .collect();
    PowerGeneration::new_pv(None, true, Watt(3000), profile).unwrap()
}

fn layout() -> Vec<Vec<Vec<PowerGeneration>>> {
    vec![vec![vec![unit(0), unit(1)], vec![unit(2)]]]
}

/// A unit that uses 20 W more than it generates, at every time of the day.
fn balanced_unit(seed: i64) -> PowerGeneration {
    let profile: Vec<ProfilePoint> = (0..96)
        .map(|slot| ProfilePoint {
            generated: Watt(480 + (slot * 13 + seed * 3) % 900),
            used: Watt(500 + (slot * 13 + seed * 3) % 900),
        })
        .collect();
    PowerGeneration::new_pv(None, true, Watt(3000), profile).unwrap()
}

/// A grid whose net draw of 60 W the reserve takes in full.
fn balanced_layout() -> Vec<Vec<Vec<PowerGeneration>>> {
    vec![vec![vec![balanced_unit(0), balanced_unit(1)], vec![balanced_unit(2)]]]
}

fn param(steps: i32, stop: bool) -> ModelParameters {
    let mut param = ModelParameters::test();
    param.steps = Steps(steps);
    param.stop_on_freq_error = stop;
    param.grid.freq_boundary = Boundaries {
        state: GridBoundaryState::Normal,
        normalband: NormalBand { lower: mHz(49_800), higher: mHz(50_200) },
        lowerbands: vec![],
        upperbands: vec![BoundaryBand {
            border: mHz(50_300),
            max_time_allowed: Steps(1),
            time_passed: Steps(0),
        }],
    };
    param
}

/// Pumps the run to its end. Every household is infected at the first step,
/// an attacked household reports ten times its net draw, and the voltage
/// stays where it is.
fn pump(model: &mut Model, run: &mut StepRun) -> (Vec<StepPhase>, Vec<GridInformation>, Result<(), ModelError>) {
    let mut phases = vec![];
    let mut summaries = vec![];
    let mut event = StepEvent::Go;
    loop {
        phases.push(run.phase);
        match model.step(run, event) {
            Ok(StepAction::Continue) => event = StepEvent::Go,
            Ok(StepAction::DrawRolls) => {
                event = StepEvent::Rolls(vec![(false, run.step == Steps(0)); model.households.len()])
            }
            Ok(StepAction::Falsify(_)) => {
                event = StepEvent::Falsified(
                    model
                        .households
                        .iter()
                        .map(|h| (h.powerstate.power_generated, Watt(h.powerstate.power_reported.0 * 10)))
                        .collect(),
                )
            }
            Ok(StepAction::MeasureVoltages) => {
                event = StepEvent::Voltages(model.netstations.iter().map(|n| n.volt_state.now).collect())
            }
            Ok(StepAction::Report(_)) => event = StepEvent::Go,
            Ok(StepAction::Summary(information)) => {
                summaries.push(information);
                event = StepEvent::Go;
            }
            Ok(StepAction::Done) => return (phases, summaries, Ok(())),
            Err(error) => return (phases, summaries, Err(error)),
        }
    }
}

const TICK: [StepPhase; 9] = [
    StepPhase::UpdateStep,
    StepPhase::NewPowerState,
    StepPhase::AttackAndPatch,
    StepPhase::ModifyInfected,
    StepPhase::PowerFromChildren,
    StepPhase::Compensation,
    StepPhase::MismatchImpact,
    StepPhase::BoundaryCheck,
    StepPhase::Summary,
];

#[test]
fn a_run_takes_its_ticks_phase_by_phase() {
    let mut model = Model::new(param(3, false), &layout()).unwrap();
    let mut run = model.run();
    assert_eq!(run, StepRun::new(Steps(3)));
    assert_eq!(
        run,
        StepRun { phase: StepPhase::UpdateStep, step: Steps(0), num_steps: Steps(3), need_to_stop: false }
    );
    let (phases, summaries, result) = pump(&mut model, &mut run);
    assert!(result.is_ok());
    let mut expected = vec![];
    for _ in 0..3 {
        expected.extend_from_slice(&TICK);
    }
    expected.push(StepPhase::Finished);
    assert_eq!(phases, expected);
    assert_eq!(summaries.len(), 3);
    assert_eq!(run.phase, StepPhase::Finished);
    assert_eq!(run.step, Steps(2));
    assert_eq!(model.root.step, Steps(2));
    assert!(model.households.iter().all(|h| h.step == Steps(2)));
    // no attack is active before step 10, so nothing is distorted: the error
    // of the root is the net draw of the grid less the 100 W of the reserve
    assert!(summaries
        .iter()
        .all(|s| s.power_state.power_error == Watt(s.power_state.power_reported.0 - 100)));
    assert!(summaries
        .iter()
        .all(|s| s.power_state.power_reported
            == Watt(s.power_state.power_used.0 - s.power_state.power_generated.0)));
    // step 0: 500 + 503 + 506 used, 0 + 1 + 2 generated
    assert_eq!(summaries[0].power_state.power_used, Watt(1509));
    assert_eq!(summaries[0].power_state.power_generated, Watt(3));
    assert_eq!(summaries[0].power_state.power_error, Watt(1406));
    assert_eq!(
        summaries.iter().map(|s| s.reserve_power.current_usage).collect::<Vec<_>>(),
        vec![Watt(100), Watt(200), Watt(300)]
    );
    assert!(summaries.iter().all(|s| s.infection_statistics.num_infected == 3));
}

#[test]
fn a_run_without_steps_is_finished_at_once() {
    for steps in [0, -5] {
        let mut model = Model::new(param(steps, false), &layout()).unwrap();
        let mut run = StepRun::new(Steps(steps));
        assert_eq!(run.phase, StepPhase::Finished);
        let (phases, summaries, result) = pump(&mut model, &mut run);
        assert!(result.is_ok());
        assert_eq!(phases, vec![StepPhase::Finished]);
        assert!(summaries.is_empty());
        assert_eq!(model.root.powerstate, PowerState::new());
    }
}

#[test]
fn a_critical_frequency_stops_the_run_after_the_summary_of_its_tick() {
    let mut model = Model::new(param(40, true), &balanced_layout()).unwrap();
    let mut run = StepRun::new(model.param.steps);
    let (phases, summaries, result) = pump(&mut model, &mut run);
    match result {
        Err(ModelError::NeedToStop) => {}
        other => panic!("expected the stop signal, got {other:?}"),
    }
    // the attack starts at step 10: a warning at step 10, critical at step 11
    assert_eq!(summaries.len(), 12);
    assert_eq!(run.step, Steps(11));
    assert_eq!(run.phase, StepPhase::Stopped);
    assert!(run.need_to_stop);
    assert_eq!(phases.len(), 12 * 9 + 1);
    assert_eq!(phases[phases.len() - 2], StepPhase::Summary);
    assert_eq!(phases[phases.len() - 1], StepPhase::Stopped);
    assert_eq!(model.root.freq_boundary.state, GridBoundaryState::TooHigh);
    assert_eq!(model.root.freq_boundary.upperbands[0].time_passed, Steps(2));
    assert!(summaries[10].freq_state.now.0 >= 50_300);
    assert!(summaries[11].freq_state.now.0 > summaries[10].freq_state.now.0);
    assert!(summaries[9].freq_state.now.0 == 50_000);
    // before the attack the reserve takes the whole net draw of 60 W
    assert_eq!(summaries[9].power_state.power_error, Watt(0));
    assert_eq!(summaries[9].reserve_power.current_usage, Watt(600));
    // under attack each household reports 200 W for its 20 W: 3 * 180 W of
    // error, of which the reserve takes 100 W
    assert_eq!(summaries[10].power_state.power_error, Watt(440));
    assert_eq!(summaries[11].reserve_power.current_usage, Watt(800));
    // a stopped run stays stopped
    assert!(matches!(model.step(&mut run, StepEvent::Go), Err(ModelError::NeedToStop)));
    assert_eq!(run.phase, StepPhase::Stopped);
}

#[test]
fn a_critical_frequency_does_not_stop_a_run_that_is_not_set_to() {
    let mut model = Model::new(param(40, false), &balanced_layout()).unwrap();
    let mut run = StepRun::new(model.param.steps);
    let (_, summaries, result) = pump(&mut model, &mut run);
    assert!(result.is_ok());
    assert_eq!(summaries.len(), 40);
    assert_eq!(model.root.freq_boundary.state, GridBoundaryState::TooHigh);
}

#[test]
fn a_phase_does_not_take_values_it_does_not_need() {
    let mut model = Model::new(param(3, false), &layout()).unwrap();
    let mut run = StepRun::new(model.param.steps);
    assert!(matches!(model.step(&mut run, StepEvent::Go), Ok(StepAction::Continue)));
    assert!(matches!(model.step(&mut run, StepEvent::Go), Ok(StepAction::DrawRolls)));
    assert_eq!(run.phase, StepPhase::AttackAndPatch);

    // the epidemic needs rolls, one pair per household
    for event in [
        StepEvent::Go,
        StepEvent::Voltages(vec![mVolt(0); 3]),
        StepEvent::Falsified(vec![(Watt(0), Watt(0)); 3]),
        StepEvent::Rolls(vec![(true, true); 2]),
    ] {
        match model.step(&mut run, event) {
            Err(error) => assert_eq!(
                error.message(),
                "ParamError: rolls for every household - the phase of the run needs other values than it was handed"
            ),
            Ok(action) => panic!("the phase was taken: {action:?}"),
        }
        assert_eq!(run.phase, StepPhase::AttackAndPatch);
        assert!(model
            .households
            .iter()
            .all(|h| h.power_generation.infection_state == InfectionState::Vulnerable));
    }
    assert!(matches!(
        model.step(&mut run, StepEvent::Rolls(vec![(false, false); 3])),
        Ok(StepAction::Falsify(None))
    ));

    // the distortion needs falsified figures, one pair per household
    match model.step(&mut run, StepEvent::Rolls(vec![(false, false); 3])) {
        Err(error) => assert_eq!(
            error.message(),
            "ParamError: falsified figures for every household - the phase of the run needs other values than it was handed"
        ),
        Ok(action) => panic!("the phase was taken: {action:?}"),
    }
    assert!(matches!(
        model.step(&mut run, StepEvent::Falsified(vec![(Watt(0), Watt(0)); 4])),
        Err(ModelError::ParamError { .. })
    ));
    assert_eq!(run.phase, StepPhase::ModifyInfected);
    assert!(matches!(
        model.step(&mut run, StepEvent::Falsified(vec![(Watt(0), Watt(0)); 3])),
        Ok(StepAction::Continue)
    ));
    assert!(matches!(model.step(&mut run, StepEvent::Go), Ok(StepAction::Continue)));
    assert!(matches!(model.step(&mut run, StepEvent::Go), Ok(StepAction::MeasureVoltages)));

    // the impact needs voltages, one per netstation
    match model.step(&mut run, StepEvent::Voltages(vec![mVolt(230_000); 3])) {
        Err(error) => assert_eq!(
            error.message(),
            "ParamError: a voltage for every netstation - the phase of the run needs other values than it was handed"
        ),
        Ok(action) => panic!("the phase was taken: {action:?}"),
    }
    assert_eq!(run.phase, StepPhase::MismatchImpact);
    assert!(matches!(
        model.step(&mut run, StepEvent::Voltages(vec![mVolt(229_000), mVolt(231_000)])),
        Ok(StepAction::Continue)
    ));
    assert_eq!(model.netstations[1].volt_state.now, mVolt(231_000));
    assert!(matches!(model.step(&mut run, StepEvent::Go), Ok(StepAction::Report(_))));
    assert!(matches!(model.step(&mut run, StepEvent::Go), Ok(StepAction::Summary(_))));
    assert_eq!(run.phase, StepPhase::UpdateStep);
    assert_eq!(run.step, Steps(1));
}

#[test]
fn the_active_attack_is_told_with_the_request_for_falsified_figures() {
    let mut p = param(20, false);
    p.attack.attack_behaviour.insert(
        0,
        smartgrid_iot_security::attack::AttackBehaviour { begin: Steps(12), end: Steps(13) },
    );
    let mut model = Model::new(p, &layout()).unwrap();
    let mut run = StepRun::new(model.param.steps);
    let mut told = vec![];
    let mut event = StepEvent::Go;
    loop {
        event = match model.step(&mut run, event).unwrap() {
            StepAction::DrawRolls => StepEvent::Rolls(vec![(false, false); 3]),
            StepAction::Falsify(place) => {
                told.push(place);
                StepEvent::Falsified(vec![(Watt(0), Watt(0)); 3])
            }
            StepAction::MeasureVoltages => StepEvent::Voltages(vec![mVolt(230_000); 2]),
            StepAction::Done => break,
            _ => StepEvent::Go,
        };
    }
    let mut expected = vec![None; 10];
    expected.extend_from_slice(&[Some(1), Some(1), Some(0), Some(0)]);
    expected.extend_from_slice(&[Some(1); 6]);
    assert_eq!(told, expected);
}

#[test]
fn falsified_figures_beyond_the_range_leave_the_run_where_it_is() {
    let mut model = Model::new(param(20, false), &layout()).unwrap();
    let mut run = StepRun { phase: StepPhase::UpdateStep, step: Steps(10), num_steps: Steps(20), need_to_stop: false };
    model.step(&mut run, StepEvent::Go).unwrap();
    model.step(&mut run, StepEvent::Go).unwrap();
    model.step(&mut run, StepEvent::Rolls(vec![(false, true); 3])).unwrap();
    let bad = vec![(Watt(i64::MIN), Watt(0)); 3];
    assert!(matches!(
        model.step(&mut run, StepEvent::Falsified(bad)),
        Err(ModelError::InfectionError(_))
    ));
    assert_eq!(run.phase, StepPhase::ModifyInfected);
    // the figures are the clean ones still: the error is used - generated
    assert!(model
        .households
        .iter()
        .all(|h| h.powerstate.power_error == Watt(h.powerstate.power_used.0 - h.powerstate.power_generated.0)));
    assert_eq!(model.households[0].powerstate.power_error, Watt(630 - 70));
    assert!(model.households.iter().all(|h| h.powerstate.power_error == h.powerstate.power_reported));
    assert!(matches!(
        model.step(&mut run, StepEvent::Falsified(vec![(Watt(1), Watt(2)); 3])),
        Ok(StepAction::Continue)
    ));
    assert_eq!(model.households[0].powerstate.power_reported, Watt(2));
}

#[test]
fn agents_can_be_reached_through_the_accessors_of_their_trait() {
    let grid = Grid::_test();
    let mut root = Root::new(0, &grid);
    *root.step_mut() = Steps(4);
    *root.index_mut() = 9;
    root.children_mut().push(1);
    root.powerstate_mut().power_used = Watt(5);
    assert_eq!(*root.step(), Steps(4));
    assert_eq!(*root.index(), 9);
    assert_eq!(*root.children(), vec![1]);
    assert_eq!(root.powerstate().power_used, Watt(5));
    assert_eq!(*root.kind(), AgentKind::Root);
    assert!(root.power_gen().is_none());
    assert!(root.power_gen_mut().is_none());
    root.freq_state().now = mHz(49_000);
    root.freq_boundary().state = GridBoundaryState::Low;
    assert_eq!(root.freq_state.now, mHz(49_000));
    assert_eq!(root.freq_boundary.state, GridBoundaryState::Low);

    let mut area = Area::new(3);
    *area.kind_mut() = AgentKind::Connection;
    assert_eq!(area.kind, AgentKind::Connection);
    assert!(area.power_gen().is_none());

    let mut netstation = Netstation::new(2, &grid);
    netstation.volt_state().now = mVolt(1);
    netstation.volt_boundary().state = GridBoundaryState::High;
    assert_eq!(netstation.volt_state.now, mVolt(1));
    assert_eq!(netstation.volt_boundary.state, GridBoundaryState::High);

    let mut household = Household::new(5, unit(0));
    assert_eq!(household.power_gen().map(|u| u.infection_state), Some(InfectionState::Vulnerable));
    household.power_gen_mut().unwrap().infection_state = InfectionState::Patched;
    household.power_generation_mut().average_power_usage = Watt(1);
    assert_eq!(household.power_generation.infection_state, InfectionState::Patched);
    assert_eq!(household.power_generation().average_power_usage, Watt(1));
}

#[test]
fn the_root_checks_its_frequency_on_its_own() {
    let mut grid = Grid::_test();
    grid.freq_boundary = param(1, false).grid.freq_boundary;
    let mut root = Root::new(0, &grid);
    root.freq_state.now = mHz(50_400);
    let warning = root.boundary_check(&vec![], &vec![]).expect("the frequency is too high");
    assert_eq!(warning.state, GridBoundaryState::High);
    assert_eq!(warning.agent_index, Some(0));
    let critical = root.boundary_check(&vec![], &vec![]).expect("the time is over");
    assert_eq!(critical.state, GridBoundaryState::TooHigh);
    assert!(critical.critical);
    assert!(root.boundary_check(&vec![], &vec![]).is_none());
}
