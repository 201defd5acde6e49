//! The epidemic state of a power generation unit and counts over a population.
use crate::util::BaseInt;
use core::ops::Add;
use vstd::prelude::*;
use vstd::std_specs::convert::FromSpecImpl;
use vstd::std_specs::ops::AddSpecImpl;

verus! {

/// All possible states that a power generation unit can have regarding being
/// infected.
#[derive(Clone, Copy, Debug, PartialEq, Eq, Structural, PartialOrd, Hash)]
pub enum InfectionState {
    /// Can not be infected.
    NotVulnerable,
    /// Can be infected.
    Vulnerable,
    /// Currently infected by malware.
    Infected,
    /// Was vulnerable or infected before being patched. Is not vulnerable
    /// anymore.
    Patched,
}

impl InfectionState {
    /// The state that follows this one after a tick in which the patch roll
    /// and the infection roll came out as given.
    ///
    /// A unit that can not be infected and a unit that is patched stay as they
    /// are. A successful patch roll patches a vulnerable or an infected unit,
    /// whatever the infection roll says. A successful infection roll infects a
    /// vulnerable unit that was not patched in the same tick.
    pub open spec fn spec_transition(self, will_patch: bool, will_infect: bool) -> InfectionState {
        match self {
            InfectionState::NotVulnerable => InfectionState::NotVulnerable,
            InfectionState::Patched => InfectionState::Patched,
            InfectionState::Infected => if will_patch {
                InfectionState::Patched
            } else {
                InfectionState::Infected
            },
            InfectionState::Vulnerable => if will_patch {
                InfectionState::Patched
            } else if will_infect {
                InfectionState::Infected
            } else {
                InfectionState::Vulnerable
            },
        }
    }

    /// The state that follows this one after a tick in which the patch roll
    /// and the infection roll came out as given.
    #[verifier::when_used_as_spec(spec_transition)]
    pub fn transition(self, will_patch: bool, will_infect: bool) -> (next: InfectionState)
        ensures
            next == self.spec_transition(will_patch, will_infect),
    {
        match (self, will_infect, will_patch) {
            (InfectionState::NotVulnerable, _, _) => self,
            (InfectionState::Patched, _, _) => self,
            (InfectionState::Infected, _, true) => InfectionState::Patched,
            (InfectionState::Vulnerable, _, true) => InfectionState::Patched,
            (InfectionState::Infected, _, false) => self,
            (InfectionState::Vulnerable, true, _) => InfectionState::Infected,
            (InfectionState::Vulnerable, false, false) => self,
        }
    }

    /// Whether the state is `Infected`.
    pub fn is_infected(self) -> (b: bool)
        ensures
            b == (self == InfectionState::Infected),
    {
        match self {
            InfectionState::Infected => true,
            _ => false,
        }
    }
}

/// Patched and not vulnerable units never change their state again, and an
/// infected unit either stays infected or becomes patched: it never goes back
/// to being vulnerable or immune.
pub proof fn lemma_transition_is_monotone(
    state: InfectionState,
    will_patch: bool,
    will_infect: bool,
)
    ensures
        state == InfectionState::Patched ==> state.spec_transition(will_patch, will_infect)
            == InfectionState::Patched,
        state == InfectionState::NotVulnerable ==> state.spec_transition(will_patch, will_infect)
            == InfectionState::NotVulnerable,
        state == InfectionState::Infected ==> state.spec_transition(will_patch, will_infect)
            != InfectionState::Vulnerable && state.spec_transition(will_patch, will_infect)
            != InfectionState::NotVulnerable,
{
}

/// Number of entries of `states` that are equal to `state`.
pub open spec fn count_state(states: Seq<InfectionState>, state: InfectionState) -> int
    decreases states.len(),
{
    if states.len() == 0 {
        0
    } else {
        count_state(states.drop_last(), state) + if states.last() == state {
            1int
        } else {
            0int
        }
    }
}

/// The four counts are never negative and add up to the length of the
/// sequence.
pub proof fn lemma_count_state_partition(states: Seq<InfectionState>)
    ensures
        0 <= count_state(states, InfectionState::NotVulnerable),
        0 <= count_state(states, InfectionState::Vulnerable),
        0 <= count_state(states, InfectionState::Infected),
        0 <= count_state(states, InfectionState::Patched),
        count_state(states, InfectionState::NotVulnerable) + count_state(
            states,
            InfectionState::Vulnerable,
        ) + count_state(states, InfectionState::Infected) + count_state(
            states,
            InfectionState::Patched,
        ) == states.len(),
    decreases states.len(),
{
    if states.len() > 0 {
        lemma_count_state_partition(states.drop_last());
    }
}

/// How many units of a population are in each infection state.
#[derive(Copy, Clone, Debug, PartialEq, Eq, Structural)]
pub struct InfectionCount {
    /// Can not be infected.
    pub not_vulnerable: BaseInt,
    /// Can be infected.
    pub vulnerable: BaseInt,
    /// Currently infected by malware.
    pub infected: BaseInt,
    /// Patched: not vulnerable anymore.
    pub patched: BaseInt,
}

impl InfectionCount {
    /// The count of a population of one unit in the given state.
    pub open spec fn of(state: InfectionState) -> InfectionCount {
        InfectionCount {
            not_vulnerable: if state == InfectionState::NotVulnerable {
                1
            } else {
                0
            },
            vulnerable: if state == InfectionState::Vulnerable {
                1
            } else {
                0
            },
            infected: if state == InfectionState::Infected {
                1
            } else {
                0
            },
            patched: if state == InfectionState::Patched {
                1
            } else {
                0
            },
        }
    }
}

impl Default for InfectionCount {
    fn default() -> (c: Self)
        ensures
            c == (InfectionCount { not_vulnerable: 0, vulnerable: 0, infected: 0, patched: 0 }),
    {
        InfectionCount { not_vulnerable: 0, vulnerable: 0, infected: 0, patched: 0 }
    }
}

impl From<InfectionState> for InfectionCount {
    fn from(value: InfectionState) -> (c: Self) {
        match value {
            InfectionState::NotVulnerable => Self {
                not_vulnerable: 1,
                vulnerable: 0,
                infected: 0,
                patched: 0,
            },
            InfectionState::Vulnerable => Self {
                not_vulnerable: 0,
                vulnerable: 1,
                infected: 0,
                patched: 0,
            },
            InfectionState::Infected => Self {
                not_vulnerable: 0,
                vulnerable: 0,
                infected: 1,
                patched: 0,
            },
            InfectionState::Patched => Self {
                not_vulnerable: 0,
                vulnerable: 0,
                infected: 0,
                patched: 1,
            },
        }
    }
}

impl FromSpecImpl<InfectionState> for InfectionCount {
    open spec fn obeys_from_spec() -> bool {
        true
    }

    open spec fn from_spec(value: InfectionState) -> Self {
        InfectionCount::of(value)
    }
}

impl Add for InfectionCount {
    type Output = InfectionCount;

    fn add(self, rhs: Self) -> (total: Self::Output) {
        InfectionCount {
            not_vulnerable: self.not_vulnerable + rhs.not_vulnerable,
            vulnerable: self.vulnerable + rhs.vulnerable,
            infected: self.infected + rhs.infected,
            patched: self.patched + rhs.patched,
        }
    }
}

impl AddSpecImpl for InfectionCount {
    open spec fn obeys_add_spec() -> bool {
        true
    }

    open spec fn add_req(self, rhs: Self) -> bool {
        &&& i32::MIN <= self.not_vulnerable + rhs.not_vulnerable <= i32::MAX
        &&& i32::MIN <= self.vulnerable + rhs.vulnerable <= i32::MAX
        &&& i32::MIN <= self.infected + rhs.infected <= i32::MAX
        &&& i32::MIN <= self.patched + rhs.patched <= i32::MAX
    }

    open spec fn add_spec(self, rhs: Self) -> Self::Output {
        InfectionCount {
            not_vulnerable: (self.not_vulnerable + rhs.not_vulnerable) as i32,
            vulnerable: (self.vulnerable + rhs.vulnerable) as i32,
            infected: (self.infected + rhs.infected) as i32,
            patched: (self.patched + rhs.patched) as i32,
        }
    }
}

/// Counts, over a slice of infection states, how many are not vulnerable,
/// vulnerable, infected and patched, in this order.
pub fn count_states(states: &[InfectionState]) -> (counts: (i32, i32, i32, i32))
    requires
        states@.len() <= i32::MAX,
    ensures
        counts.0 == count_state(states@, InfectionState::NotVulnerable),
        counts.1 == count_state(states@, InfectionState::Vulnerable),
        counts.2 == count_state(states@, InfectionState::Infected),
        counts.3 == count_state(states@, InfectionState::Patched),
{
    let mut num_not_vulnerable: i32 = 0;
    let mut num_vulnerable: i32 = 0;
    let mut num_infected: i32 = 0;
    let mut num_patched: i32 = 0;
    let mut i: usize = 0;
    while i < states.len()
        invariant
            i <= states@.len() <= i32::MAX,
            num_not_vulnerable == count_state(
                states@.take(i as int),
                InfectionState::NotVulnerable,
            ),
            num_vulnerable == count_state(states@.take(i as int), InfectionState::Vulnerable),
            num_infected == count_state(states@.take(i as int), InfectionState::Infected),
            num_patched == count_state(states@.take(i as int), InfectionState::Patched),
        decreases states@.len() - i,
    {
        proof {
            lemma_count_state_partition(states@.take(i as int));
            assert(states@.take(i + 1).drop_last() =~= states@.take(i as int));
        }
        match states[i] {
            InfectionState::NotVulnerable => {
                num_not_vulnerable = num_not_vulnerable + 1;
            },
            InfectionState::Vulnerable => {
                num_vulnerable = num_vulnerable + 1;
            },
            InfectionState::Infected => {
                num_infected = num_infected + 1;
            },
            InfectionState::Patched => {
                num_patched = num_patched + 1;
            },
        }
        i = i + 1;
    }
    proof {
        assert(states@.take(states@.len() as int) =~= states@);
    }
    (num_not_vulnerable, num_vulnerable, num_infected, num_patched)
}

/// Counts of a household population by infection state.
#[derive(Copy, Clone, Debug, PartialEq, Eq, Structural)]
pub struct InfectionStatistics {
    /// Total number of power generation units.
    pub total: BaseInt,
    /// Number of units that can not be infected.
    pub num_not_vulnerable: BaseInt,
    /// Number of units that can be infected.
    pub num_vulnerable: BaseInt,
    /// Number of units that are infected.
    pub num_infected: BaseInt,
    /// Number of units that are patched.
    pub num_patched: BaseInt,
}

impl InfectionStatistics {
    /// The statistics of the population whose states are given.
    pub open spec fn of(states: Seq<InfectionState>) -> InfectionStatistics {
        InfectionStatistics {
            total: states.len() as i32,
            num_not_vulnerable: count_state(states, InfectionState::NotVulnerable) as i32,
            num_vulnerable: count_state(states, InfectionState::Vulnerable) as i32,
            num_infected: count_state(states, InfectionState::Infected) as i32,
            num_patched: count_state(states, InfectionState::Patched) as i32,
        }
    }

    /// Gathers the statistics of a population of households from the states of
    /// their units.
    pub fn new(states: &[InfectionState]) -> (stats: Self)
        requires
            states@.len() <= i32::MAX,
        ensures
            stats == Self::of(states@),
            stats.total == states@.len(),
            stats.total == stats.num_not_vulnerable + stats.num_vulnerable + stats.num_infected
                + stats.num_patched,
    {
        let (num_not_vulnerable, num_vulnerable, num_infected, num_patched) = count_states(states);
        proof {
            lemma_count_state_partition(states@);
        }
        let total: i32 = num_not_vulnerable + num_infected + num_vulnerable + num_patched;
        Self { total, num_not_vulnerable, num_vulnerable, num_infected, num_patched }
    }
}

impl Default for InfectionStatistics {
    fn default() -> (stats: Self)
        ensures
            stats == Self::of(Seq::empty()),
    {
        Self {
            total: 0,
            num_not_vulnerable: 0,
            num_vulnerable: 0,
            num_infected: 0,
            num_patched: 0,
        }
    }
}

} // verus!
