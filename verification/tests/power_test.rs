use smartgrid_iot_security::agent::{AgentKind, AgentRef, Household, Netstation};
use smartgrid_iot_security::grid::{
    Boundaries, GridBoundaryState, NormalBand, PowerGeneration, PowerState, ProfilePoint,
};
use smartgrid_iot_security::grid::Grid;
use smartgrid_iot_security::util::{mHz, mVolt, Watt};

fn powerstate_test() -> (PowerState, PowerState, PowerState) {
    let ps1: PowerState = PowerState {
        power_used: Watt(40),
        power_reported: Watt(40),
        power_error: Watt(40),
        power_generated: Watt(40),
        history_power_generated: vec![],
        history_power_used: vec![],
        history_power_reported: vec![],
        history_power_error: vec![],
        history_len: 10,
    };
    let ps2: PowerState = PowerState {
        power_used: Watt(40),
        power_reported: Watt(40),
        power_error: Watt(40),
        power_generated: Watt(40),
        history_power_generated: vec![],
        history_power_used: vec![],
        history_power_reported: vec![],
        history_power_error: vec![],
        history_len: 10,
    };
    let ps3: PowerState = PowerState {
        power_used: Watt(80),
        power_reported: Watt(80),
        power_error: Watt(80),
        power_generated: Watt(80),
        history_power_generated: vec![],
        history_power_used: vec![],
        history_power_reported: vec![],
        history_power_error: vec![],
        history_len: 10,
    };
    (ps1, ps2, ps3)
}

fn figures(generated: i64, used: i64, reported: i64, error: i64) -> PowerState {
    let mut ps = PowerState::new();
    ps.power_generated = Watt(generated);
    ps.power_used = Watt(used);
    ps.power_reported = Watt(reported);
    ps.power_error = Watt(error);
    ps
}

fn test_grid() -> Grid {
    let band = NormalBand { lower: mVolt(225_000), higher: mVolt(235_000) };
    let freq_band = NormalBand { lower: mHz(49_800), higher: mHz(50_200) };
    Grid {
        energy_storage: Watt(10_000),
        max_gen_inc_tick: Watt(100),
        bulk_consumption: Watt(10_000),
        volt_boundary: Boundaries {
            state: GridBoundaryState::Normal,
            normalband: band,
            lowerbands: vec![],
            upperbands: vec![],
        },
        freq_boundary: Boundaries {
            state: GridBoundaryState::Normal,
            normalband: freq_band,
            lowerbands: vec![],
            upperbands: vec![],
        },
    }
}

fn flat_profile(generated: i64, used: i64) -> Vec<ProfilePoint> {
    vec![ProfilePoint { generated: Watt(generated), used: Watt(used) }; 96]
}

#[test]
fn powerstate_sum_test() {
    let (ps1, ps2, ps3) = powerstate_test();
    assert_eq!((ps1 + ps2), (ps3));
}

#[test]
fn powerstate_iter_sum_test() {
    let (ps1, ps2, ps3) = powerstate_test();
    let it = vec![ps1, ps2];
    assert_eq!(PowerState::sum(&it), (ps3));
}

#[test]
fn check_powerstate_calc() {
    let grid = test_grid();
    let mut agent = Netstation::new(117, &grid);
    let mut child1 =
        Household::new(117, PowerGeneration::new_no_pv(Some(117), Watt(10_000), flat_profile(0, 5)).unwrap());
    let mut child2 = Household::new(
        117,
        PowerGeneration::new_pv(Some(117), true, Watt(10_000), flat_profile(3, 5)).unwrap(),
    );

    let (ps1, ps2, ps3) = powerstate_test();
    child1.powerstate = ps1;
    child2.powerstate = ps2;
    let households = vec![child1, child2];
    let agents = vec![
        AgentRef { kind: AgentKind::Netstation, position: 0 },
        AgentRef { kind: AgentKind::Household, position: 0 },
        AgentRef { kind: AgentKind::Household, position: 1 },
    ];
    agent.children = vec![1, 2];

    assert!(agent.calc_power_from_child(&agents, &households));

    assert_eq!(agent.powerstate, ps3);
}

#[test]
fn an_agent_without_children_keeps_its_figures() {
    let grid = test_grid();
    let mut agent = Netstation::new(0, &grid);
    agent.powerstate = figures(1, 2, 3, 4);
    let agents = vec![AgentRef { kind: AgentKind::Netstation, position: 0 }];
    let households: Vec<Household> = vec![];
    assert!(agent.calc_power_from_child(&agents, &households));
    assert_eq!(agent.powerstate, figures(1, 2, 3, 4));
}

#[test]
fn a_sum_beyond_the_watt_range_is_refused_and_changes_nothing() {
    let grid = test_grid();
    let mut agent = Netstation::new(0, &grid);
    agent.powerstate = figures(1, 2, 3, 4);
    let mut child1 = Household::new(
        1,
        PowerGeneration::new_no_pv(None, Watt(1), flat_profile(0, 5)).unwrap(),
    );
    let mut child2 = Household::new(
        2,
        PowerGeneration::new_no_pv(None, Watt(1), flat_profile(0, 5)).unwrap(),
    );
    child1.powerstate = figures(0, i64::MAX, 0, 0);
    child2.powerstate = figures(0, 1, 0, 0);
    let households = vec![child1, child2];
    let agents = vec![
        AgentRef { kind: AgentKind::Netstation, position: 0 },
        AgentRef { kind: AgentKind::Household, position: 0 },
        AgentRef { kind: AgentKind::Household, position: 1 },
    ];
    agent.children = vec![1, 2];
    assert!(!agent.calc_power_from_child(&agents, &households));
    assert_eq!(agent.powerstate, figures(1, 2, 3, 4));
}

#[test]
fn a_sum_may_pass_the_watt_range_on_its_way() {
    let grid = test_grid();
    let mut agent = Netstation::new(0, &grid);
    let mut children = vec![];
    for (index, used) in [(1u32, i64::MAX), (2, 5), (3, -10)] {
        let mut child =
            Household::new(index, PowerGeneration::new_no_pv(None, Watt(1), flat_profile(0, 5)).unwrap());
        child.powerstate = figures(0, used, 0, 0);
        children.push(child);
    }
    let agents = vec![
        AgentRef { kind: AgentKind::Netstation, position: 0 },
        AgentRef { kind: AgentKind::Household, position: 0 },
        AgentRef { kind: AgentKind::Household, position: 1 },
        AgentRef { kind: AgentKind::Household, position: 2 },
    ];
    agent.children = vec![1, 2, 3];
    assert!(agent.calc_power_from_child(&agents, &children));
    assert_eq!(agent.powerstate, figures(0, i64::MAX - 5, 0, 0));
}

#[test]
fn the_sum_of_power_states_does_not_depend_on_the_order() {
    let a = figures(1, 20, 300, 4000);
    let b = figures(-5, 7, -9, 11);
    let c = figures(100, -100, 50, -50);
    let forward = PowerState::sum(&vec![a.clone(), b.clone(), c.clone()]);
    let backward = PowerState::sum(&vec![c.clone(), b.clone(), a.clone()]);
    let mixed = PowerState::sum(&vec![b, c, a]);
    assert_eq!(forward, figures(96, -73, 341, 3961));
    assert_eq!(forward, backward);
    assert_eq!(forward, mixed);
}

#[test]
fn the_sum_of_nothing_is_zero() {
    assert_eq!(PowerState::sum(&vec![]), PowerState::new());
    assert_eq!(PowerState::default(), figures(0, 0, 0, 0));
}

#[test]
fn equality_of_power_states_ignores_the_history() {
    let mut with_history = figures(1, 2, 3, 4);
    with_history.update_history();
    assert_eq!(with_history, figures(1, 2, 3, 4));
    assert_ne!(with_history, figures(1, 2, 3, 5));
}

#[test]
fn manual_add_adds_figure_by_figure_and_leaves_the_history() {
    let mut ps = figures(1, 2, 3, 4);
    ps.update_history();
    ps.manual_add(&figures(10, 20, 30, 40));
    assert_eq!(ps, figures(11, 22, 33, 44));
    assert_eq!(ps.history_power_used, vec![Watt(2)]);
    assert_eq!(ps.history_power_generated, vec![Watt(1)]);
}

#[test]
fn can_add_tells_whether_the_sum_fits() {
    let big = figures(i64::MAX, 0, 0, i64::MIN);
    assert!(big.can_add(&figures(0, 5, 5, 0)));
    assert!(!big.can_add(&figures(1, 0, 0, 0)));
    assert!(!big.can_add(&figures(0, 0, 0, -1)));
    assert!(big.can_add(&figures(-1, 0, 0, 1)));
}

#[test]
fn update_history_keeps_the_last_ten_of_every_figure() {
    let mut ps = PowerState::new();
    for tick in 1..=12 {
        ps.power_used = Watt(tick);
        ps.power_generated = Watt(tick * 10);
        ps.power_reported = Watt(tick * 100);
        ps.power_error = Watt(tick * 1000);
        ps.update_history();
    }
    let expected: Vec<i64> = (3..=12).collect();
    assert_eq!(ps.history_power_used, expected.iter().map(|t| Watt(*t)).collect::<Vec<_>>());
    assert_eq!(
        ps.history_power_generated,
        expected.iter().map(|t| Watt(*t * 10)).collect::<Vec<_>>()
    );
    assert_eq!(
        ps.history_power_reported,
        expected.iter().map(|t| Watt(*t * 100)).collect::<Vec<_>>()
    );
    assert_eq!(
        ps.history_power_error,
        expected.iter().map(|t| Watt(*t * 1000)).collect::<Vec<_>>()
    );
}

#[test]
fn attack_replaces_generated_and_reported_and_recomputes_the_error() {
    let mut ps = figures(100, 500, 400, 0);
    ps.attack(Watt(50), Watt(800));
    assert_eq!(ps.power_generated, Watt(50));
    assert_eq!(ps.power_reported, Watt(800));
    assert_eq!(ps.power_used, Watt(500));
    // reported - (used - generated) = 800 - (500 - 50)
    assert_eq!(ps.power_error, Watt(350));
}

#[test]
fn a_clone_of_a_power_state_has_the_same_history() {
    let mut ps = figures(1, 2, 3, 4);
    ps.update_history();
    let copy = ps.clone();
    assert_eq!(copy, ps);
    assert_eq!(copy.history_power_error, vec![Watt(4)]);
    assert_eq!(copy.history_len, 10);
}
