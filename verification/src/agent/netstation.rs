//! The netstation agent: the local transformer that watches the voltage.
use crate::agent::{
    aggregate, calc_power_from_child, children_in_level, AgentKind, AgentList, AgentRef,
    AgentTrait, Household,
};
use crate::grid::{
    Boundaries, BoundaryAgentTrait, Grid, GridBoundaryState, GridState, GridWarning,
    InfectionState, InfectionStatistics, PowerGeneration, PowerState, PowerTotals, VoltState,
    NOMINAL_VOLTAGE, STATE_HISTORY_LEN,
};
use crate::util::{mVolt, BaseUint, Steps};
use vstd::prelude::*;

verus! {

/// The Netstation agent. A level below the area and one above the household.
///
/// A netstation is a power distribution house that is situated in a
/// neighbourhood. It takes the high voltage of the grid and transforms it to
/// the known 230V. As this is the point where the voltage of the grid is
/// determined, this agent is responsible for the voltage stability monitoring
/// of the grid.
#[derive(Debug)]
pub struct Netstation {
    /// Kind of agent.
    pub kind: AgentKind,
    /// Index used in the graph.
    pub index: BaseUint,
    /// Current step of the model.
    pub step: Steps,
    /// Indices of the children this agent has according to the graph.
    pub children: Vec<BaseUint>,
    /// The current power state of the agent. Changes each step.
    pub powerstate: PowerState,
    /// Voltage boundary of the grid, that needs to be monitored at this agent.
    pub volt_boundary: Boundaries<mVolt>,
    /// The current voltage and history of voltage within the agent.
    pub volt_state: VoltState,
}

impl Netstation {
    /// Whether this is a netstation as it is created for the given index and
    /// grid parameters, with the given children: at step 0, with no power and
    /// no history, at the nominal voltage, and with the voltage bands of the
    /// grid.
    pub open spec fn is_created(
        self,
        index: BaseUint,
        grid_param: &Grid,
        children: Seq<BaseUint>,
    ) -> bool {
        &&& self.kind == AgentKind::Netstation
        &&& self.index == index
        &&& self.step == Steps(0)
        &&& self.children@ == children
        &&& self.powerstate.is_fresh(PowerTotals::zero())
        &&& self.volt_boundary@ == grid_param.volt_boundary@
        &&& self.volt_state.now == mVolt(NOMINAL_VOLTAGE)
        &&& self.volt_state.history@ == Seq::<mVolt>::empty()
        &&& self.volt_state.history_len == STATE_HISTORY_LEN
    }

    /// Creates a new netstation agent, given the grid parameters and index of
    /// the graph.
    pub fn new(index: BaseUint, grid_param: &Grid) -> (netstation: Self)
        ensures
            netstation.is_created(index, grid_param, Seq::empty()),
    {
        Self {
            kind: AgentKind::Netstation,
            index,
            step: Steps(0),
            children: Vec::new(),
            powerstate: PowerState::new(),
            volt_boundary: Boundaries::<mVolt>::from(grid_param),
            volt_state: VoltState::new(grid_param),
        }
    }


    /// Gives mutable access to the volt_state field.
    pub fn volt_state(&mut self) -> (volt_state: &mut VoltState)
        ensures
            *volt_state == old(self).volt_state,
            *final(self) == (Netstation { volt_state: *final(volt_state), ..*old(self) }),
    {
        &mut self.volt_state
    }

    /// Gives mutable access to the volt_boundary field.
    pub fn volt_boundary(&mut self) -> (volt_boundary: &mut Boundaries<mVolt>)
        ensures
            *volt_boundary == old(self).volt_boundary,
            *final(self) == (Netstation { volt_boundary: *final(volt_boundary), ..*old(self) }),
    {
        &mut self.volt_boundary
    }

    /// Get the infection statistics for the children of the netstation, which
    /// are looked up through the table in the list of households.
    pub fn get_infection_state_children(
        &self,
        agents: &AgentList,
        households: &Vec<Household>,
    ) -> (stats: InfectionStatistics)
        requires
            children_in_level(agents@, households@.len(), self.children@),
            self.children.len() <= i32::MAX,
        ensures
            stats == InfectionStatistics::of(
                child_infection_states(agents@, households@, self.children@),
            ),
    {
        let ghost all = child_infection_states(agents@, households@, self.children@);
        let mut states: Vec<InfectionState> = Vec::new();
        let mut i: usize = 0;
        while i < self.children.len()
            invariant
                i <= self.children.len(),
                children_in_level(agents@, households@.len(), self.children@),
                all == child_infection_states(agents@, households@, self.children@),
                states@ == all.take(i as int),
            decreases self.children.len() - i,
        {
            let place = agents[self.children[i] as usize];
            states.push(households[place.position].power_generation.infection_state);
            proof {
                assert(states@ =~= all.take(i + 1));
            }
            i = i + 1;
        }
        proof {
            assert(all.take(self.children.len() as int) =~= all);
        }
        InfectionStatistics::new(states.as_slice())
    }

    /// What the netstation adds to a bare warning of its monitor: its index,
    /// its power state, its voltage state and the infection statistics of its
    /// children.
    pub open spec fn has_enriched(
        self,
        warning: GridWarning,
        state: GridBoundaryState,
        stats: InfectionStatistics,
    ) -> bool {
        &&& warning.state == state
        &&& warning.critical == state.spec_is_critical()
        &&& warning.agent_index == Some(self.index)
        &&& warning.agent_powerstate is Some
        &&& warning.agent_powerstate->0.same_as(self.powerstate)
        &&& warning.freq_state is None
        &&& warning.volt_state is Some
        &&& warning.volt_state->0.now == self.volt_state.now
        &&& warning.volt_state->0.history@ == self.volt_state.history@
        &&& warning.volt_state->0.history_len == self.volt_state.history_len
        &&& warning.infectionstatistics == Some(stats)
    }
}

impl BoundaryAgentTrait<mVolt> for Netstation {
    /// Every child of the netstation is found in the list of households.
    open spec fn can_check(&self, agents: Seq<AgentRef>, households: Seq<Household>) -> bool {
        children_in_level(agents, households.len(), self.children@) && self.children.len()
            <= i32::MAX
    }

    /// Lets the voltage monitor see the current voltage. A warning of the
    /// monitor is handed on with the index, the power state and the voltage
    /// state of the netstation, and with the infection statistics of its
    /// children.
    fn boundary_check(&mut self, agents: &AgentList, households: &Vec<Household>) -> (warning:
        Option<GridWarning>)
        ensures
            *final(self) == (Netstation { volt_boundary: final(self).volt_boundary, ..*old(self) }),
            final(self).volt_boundary@ == old(self).volt_boundary@.after(old(self).volt_state.now),
            match old(self).volt_boundary@.warned_state(old(self).volt_state.now) {
                Some(state) => warning is Some && old(self).has_enriched(
                    warning->0,
                    state,
                    InfectionStatistics::of(
                        child_infection_states(agents@, households@, old(self).children@),
                    ),
                ),
                None => warning is None,
            },
    {
        match self.volt_boundary.update(self.volt_state.now) {
            Some(mut gw) => {
                gw.agent_index = Some(self.index);
                gw.agent_powerstate = Some(self.powerstate.clone());
                gw.volt_state = Some(self.volt_state.clone());
                gw.infectionstatistics = Some(self.get_infection_state_children(agents, households));
                Some(gw)
            },
            None => None,
        }
    }
}

/// The infection states of the units of the children, which are looked up
/// through the table in the list of households.
pub open spec fn child_infection_states(
    agents: Seq<AgentRef>,
    households: Seq<Household>,
    children: Seq<BaseUint>,
) -> Seq<InfectionState> {
    Seq::new(
        children.len(),
        |j: int|
            households[agents[children[j] as int].position as int].power_generation.infection_state,
    )
}

impl Netstation {
    /// Determines the power state of the netstation from its children: the four
    /// figures become the figure by figure sum of the current figures of the
    /// children, which are looked up through the table in the list of
    /// households. A netstation without children keeps its figures. Nothing else
    /// changes.
    ///
    /// Tells whether the sums are within the range of `Watt`. If they are not,
    /// the figures stay as they are.
    pub fn calc_power_from_child(&mut self, agents: &AgentList, households: &Vec<Household>) -> (done: bool)
        requires
            children_in_level(agents@, households@.len(), old(self).children@),
        ensures
            *final(self) == (Netstation { powerstate: final(self).powerstate, ..*old(self) }),
            final(self).powerstate.same_history(old(self).powerstate),
            done <==> aggregate(
                old(self).powerstate.totals(),
                agents@,
                households@,
                old(self).children@,
            ).fits(),
            done ==> final(self).powerstate.totals() == aggregate(
                old(self).powerstate.totals(),
                agents@,
                households@,
                old(self).children@,
            ),
            !done ==> *final(self) == *old(self),
    {
        calc_power_from_child(&mut self.powerstate, &self.children, agents, households)
    }
}

impl AgentTrait for Netstation {
    open spec fn spec_kind(&self) -> AgentKind {
        self.kind
    }

    open spec fn spec_index(&self) -> BaseUint {
        self.index
    }

    open spec fn spec_step(&self) -> Steps {
        self.step
    }

    open spec fn spec_powerstate(&self) -> PowerState {
        self.powerstate
    }

    open spec fn spec_children(&self) -> Vec<BaseUint> {
        self.children
    }

    fn kind(&self) -> (kind: &AgentKind) {
        &self.kind
    }

    fn index(&self) -> (index: &BaseUint) {
        &self.index
    }

    fn step(&self) -> (step: &Steps) {
        &self.step
    }

    fn powerstate(&self) -> (powerstate: &PowerState) {
        &self.powerstate
    }

    fn children(&self) -> (children: &Vec<BaseUint>) {
        &self.children
    }

    open spec fn spec_power_gen(&self) -> Option<PowerGeneration> {
        None
    }

    fn power_gen(&self) -> (unit: Option<&PowerGeneration>) {
        None
    }

    fn kind_mut(&mut self) -> (kind: &mut AgentKind)
        ensures
            *final(self) == (Netstation { kind: *final(kind), ..*old(self) }),
    {
        &mut self.kind
    }

    fn index_mut(&mut self) -> (index: &mut BaseUint)
        ensures
            *final(self) == (Netstation { index: *final(index), ..*old(self) }),
    {
        &mut self.index
    }

    fn step_mut(&mut self) -> (step: &mut Steps)
        ensures
            *final(self) == (Netstation { step: *final(step), ..*old(self) }),
    {
        &mut self.step
    }

    fn children_mut(&mut self) -> (children: &mut Vec<BaseUint>)
        ensures
            *final(self) == (Netstation { children: *final(children), ..*old(self) }),
    {
        &mut self.children
    }

    fn powerstate_mut(&mut self) -> (powerstate: &mut PowerState)
        ensures
            *final(self) == (Netstation { powerstate: *final(powerstate), ..*old(self) }),
    {
        &mut self.powerstate
    }

    fn power_gen_mut(&mut self) -> (unit: Option<&mut PowerGeneration>)
        ensures
            *final(self) == *old(self),
    {
        None
    }

    fn update_step(&mut self, step: Steps)
        ensures
            *final(self) == (Netstation { step, ..*old(self) }),
    {
        self.step = step;
    }
}

} // verus!
