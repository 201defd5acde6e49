use smartgrid_iot_security::grid::{
    count_states, InfectionCount, InfectionState, InfectionStatistics, PowerGeneration,
    ProfilePoint,
};
use smartgrid_iot_security::util::Watt;

const ALL: [InfectionState; 4] = [
    InfectionState::NotVulnerable,
    InfectionState::Vulnerable,
    InfectionState::Infected,
    InfectionState::Patched,
];

#[test]
fn immune_and_patched_units_never_change() {
    for patch in [false, true] {
        for infect in [false, true] {
            assert_eq!(
                InfectionState::NotVulnerable.transition(patch, infect),
                InfectionState::NotVulnerable
            );
            assert_eq!(InfectionState::Patched.transition(patch, infect), InfectionState::Patched);
        }
    }
}

#[test]
fn an_infected_unit_stays_infected_or_gets_patched() {
    assert_eq!(InfectionState::Infected.transition(false, false), InfectionState::Infected);
    assert_eq!(InfectionState::Infected.transition(false, true), InfectionState::Infected);
    assert_eq!(InfectionState::Infected.transition(true, false), InfectionState::Patched);
    assert_eq!(InfectionState::Infected.transition(true, true), InfectionState::Patched);
}

#[test]
fn a_vulnerable_unit_is_patched_before_it_is_infected() {
    assert_eq!(InfectionState::Vulnerable.transition(false, false), InfectionState::Vulnerable);
    assert_eq!(InfectionState::Vulnerable.transition(false, true), InfectionState::Infected);
    assert_eq!(InfectionState::Vulnerable.transition(true, false), InfectionState::Patched);
    assert_eq!(InfectionState::Vulnerable.transition(true, true), InfectionState::Patched);
}

#[test]
fn no_transition_leads_back() {
    for state in ALL {
        for patch in [false, true] {
            for infect in [false, true] {
                let next = state.transition(patch, infect);
                if state == InfectionState::Patched || state == InfectionState::NotVulnerable {
                    assert_eq!(next, state);
                }
                if state == InfectionState::Infected {
                    assert_ne!(next, InfectionState::Vulnerable);
                    assert_ne!(next, InfectionState::NotVulnerable);
                }
            }
        }
    }
}

#[test]
fn only_the_infected_state_is_infected() {
    assert!(InfectionState::Infected.is_infected());
    assert!(!InfectionState::Vulnerable.is_infected());
    assert!(!InfectionState::Patched.is_infected());
    assert!(!InfectionState::NotVulnerable.is_infected());
}

#[test]
fn states_are_counted_by_kind() {
    let states = vec![
        InfectionState::Vulnerable,
        InfectionState::Infected,
        InfectionState::Vulnerable,
        InfectionState::Patched,
        InfectionState::NotVulnerable,
        InfectionState::Vulnerable,
        InfectionState::Infected,
    ];
    assert_eq!(count_states(&states), (1, 3, 2, 1));
    assert_eq!(count_states(&[]), (0, 0, 0, 0));
}

#[test]
fn statistics_hold_the_counts_and_their_total() {
    let states = vec![
        InfectionState::Vulnerable,
        InfectionState::Infected,
        InfectionState::Vulnerable,
        InfectionState::Patched,
        InfectionState::NotVulnerable,
    ];
    let stats = InfectionStatistics::new(&states);
    assert_eq!(
        stats,
        InfectionStatistics {
            total: 5,
            num_not_vulnerable: 1,
            num_vulnerable: 2,
            num_infected: 1,
            num_patched: 1,
        }
    );
    assert_eq!(
        InfectionStatistics::new(&[]),
        InfectionStatistics::default()
    );
}

#[test]
fn a_count_of_one_state_has_a_single_one() {
    assert_eq!(
        InfectionCount::from(InfectionState::NotVulnerable),
        InfectionCount { not_vulnerable: 1, vulnerable: 0, infected: 0, patched: 0 }
    );
    assert_eq!(
        InfectionCount::from(InfectionState::Vulnerable),
        InfectionCount { not_vulnerable: 0, vulnerable: 1, infected: 0, patched: 0 }
    );
    assert_eq!(
        InfectionCount::from(InfectionState::Infected),
        InfectionCount { not_vulnerable: 0, vulnerable: 0, infected: 1, patched: 0 }
    );
    assert_eq!(
        InfectionCount::from(InfectionState::Patched),
        InfectionCount { not_vulnerable: 0, vulnerable: 0, infected: 0, patched: 1 }
    );
}

#[test]
fn counts_add_up_field_by_field() {
    let a = InfectionCount { not_vulnerable: 1, vulnerable: 2, infected: 3, patched: 4 };
    let b = InfectionCount { not_vulnerable: 10, vulnerable: 20, infected: 30, patched: 40 };
    assert_eq!(a + b, InfectionCount { not_vulnerable: 11, vulnerable: 22, infected: 33, patched: 44 });
    assert_eq!(a + InfectionCount::default(), a);
}

#[test]
fn the_count_of_a_unit_is_the_count_of_its_state() {
    let profile = vec![ProfilePoint { generated: Watt(1), used: Watt(2) }; 96];
    let mut unit = PowerGeneration::new_pv(None, true, Watt(1), profile).unwrap();
    assert_eq!(
        InfectionCount::from(unit.clone()),
        InfectionCount { not_vulnerable: 0, vulnerable: 1, infected: 0, patched: 0 }
    );
    unit.infection_state = InfectionState::Patched;
    assert_eq!(
        InfectionCount::from(unit),
        InfectionCount { not_vulnerable: 0, vulnerable: 0, infected: 0, patched: 1 }
    );
}
