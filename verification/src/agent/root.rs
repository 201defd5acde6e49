//! The root agent: the top of the grid, where the frequency is watched.
use crate::agent::{
    aggregate, calc_power_from_child, children_in_level, AgentKind, AgentList, AgentRef,
    AgentTrait, Area, Household,
};
use crate::grid::{
    Boundaries, BoundaryAgentTrait, FreqState, Grid, GridBoundaryState, GridState, GridWarning,
    PowerGeneration, PowerState, PowerTotals, NOMINAL_FREQUENCY, STATE_HISTORY_LEN,
};
use crate::util::{mHz, BaseUint, Steps};
use vstd::prelude::*;

verus! {

/// The Root agent. Top-level of the grid and sits above the areas.
///
/// The root agent does not have a true physical representative in the grid. It
/// is the combination of all the area nodes and gives insight into the
/// frequency of the grid.
#[derive(Debug)]
pub struct Root {
    /// Kind of agent.
    pub kind: AgentKind,
    /// Index used in the graph.
    pub index: BaseUint,
    /// Current step of the model.
    pub step: Steps,
    /// Indices of the children this agent has according to the graph.
    pub children: Vec<BaseUint>,
    /// The current power state of the agent. Changes each step.
    pub powerstate: PowerState,
    /// Frequency boundary of the grid, that needs to be monitored at this
    /// agent.
    pub freq_boundary: Boundaries<mHz>,
    /// The current frequency and history of the frequency of the grid.
    pub freq_state: FreqState,
}

impl Root {
    /// Whether this is a root as it is created for the given index and grid
    /// parameters, with the given children: at step 0, with no power and no
    /// history, at the nominal frequency, and with the frequency bands of the
    /// grid.
    pub open spec fn is_created(
        self,
        index: BaseUint,
        grid_param: &Grid,
        children: Seq<BaseUint>,
    ) -> bool {
        &&& self.kind == AgentKind::Root
        &&& self.index == index
        &&& self.step == Steps(0)
        &&& self.children@ == children
        &&& self.powerstate.is_fresh(PowerTotals::zero())
        &&& self.freq_boundary@ == grid_param.freq_boundary@
        &&& self.freq_state.now == mHz(NOMINAL_FREQUENCY)
        &&& self.freq_state.history@ == Seq::<mHz>::empty()
        &&& self.freq_state.history_len == STATE_HISTORY_LEN
    }

    /// Creates a new root agent, given the grid parameters and index of the
    /// graph.
    pub fn new(index: BaseUint, grid_param: &Grid) -> (root: Self)
        ensures
            root.is_created(index, grid_param, Seq::empty()),
    {
        Self {
            kind: AgentKind::Root,
            index,
            step: Steps(0),
            children: Vec::new(),
            powerstate: PowerState::new(),
            freq_boundary: Boundaries::<mHz>::from(grid_param),
            freq_state: FreqState::new(grid_param),
        }
    }

}

impl Root {
    /// Gives mutable access to the freq_state field.
    pub fn freq_state(&mut self) -> (freq_state: &mut FreqState)
        ensures
            *freq_state == old(self).freq_state,
            *final(self) == (Root { freq_state: *final(freq_state), ..*old(self) }),
    {
        &mut self.freq_state
    }

    /// Gives mutable access to the freq_boundary field.
    pub fn freq_boundary(&mut self) -> (freq_boundary: &mut Boundaries<mHz>)
        ensures
            *freq_boundary == old(self).freq_boundary,
            *final(self) == (Root { freq_boundary: *final(freq_boundary), ..*old(self) }),
    {
        &mut self.freq_boundary
    }

    /// What the root adds to a bare warning of its monitor: its index, its
    /// power state and its frequency state.
    pub open spec fn has_enriched(self, warning: GridWarning, state: GridBoundaryState) -> bool {
        &&& warning.state == state
        &&& warning.critical == state.spec_is_critical()
        &&& warning.agent_index == Some(self.index)
        &&& warning.agent_powerstate is Some
        &&& warning.agent_powerstate->0.same_as(self.powerstate)
        &&& warning.freq_state is Some
        &&& warning.freq_state->0.now == self.freq_state.now
        &&& warning.freq_state->0.history@ == self.freq_state.history@
        &&& warning.freq_state->0.history_len == self.freq_state.history_len
        &&& warning.volt_state is None
        &&& warning.infectionstatistics is None
    }
}

impl BoundaryAgentTrait<mHz> for Root {
    /// The root needs nothing from the table or the households.
    open spec fn can_check(&self, agents: Seq<AgentRef>, households: Seq<Household>) -> bool {
        true
    }

    /// Lets the frequency monitor see the current frequency. A warning of the
    /// monitor is handed on with the index, the power state and the frequency
    /// state of the root. The table and the households are not looked at.
    fn boundary_check(&mut self, agents: &AgentList, households: &Vec<Household>) -> (warning:
        Option<GridWarning>)
        ensures
            *final(self) == (Root { freq_boundary: final(self).freq_boundary, ..*old(self) }),
            final(self).freq_boundary@ == old(self).freq_boundary@.after(old(self).freq_state.now),
            match old(self).freq_boundary@.warned_state(old(self).freq_state.now) {
                Some(state) => warning is Some && old(self).has_enriched(warning->0, state),
                None => warning is None,
            },
    {
        match self.freq_boundary.update(self.freq_state.now) {
            Some(mut gw) => {
                gw.agent_index = Some(self.index);
                gw.agent_powerstate = Some(self.powerstate.clone());
                gw.freq_state = Some(self.freq_state.clone());
                Some(gw)
            },
            None => None,
        }
    }
}

impl Root {
    /// Determines the power state of the root from its children: the four
    /// figures become the figure by figure sum of the current figures of the
    /// children, which are looked up through the table in the list of
    /// areas. A root without children keeps its figures. Nothing else
    /// changes.
    ///
    /// Tells whether the sums are within the range of `Watt`. If they are not,
    /// the figures stay as they are.
    pub fn calc_power_from_child(&mut self, agents: &AgentList, areas: &Vec<Area>) -> (done: bool)
        requires
            children_in_level(agents@, areas@.len(), old(self).children@),
        ensures
            *final(self) == (Root { powerstate: final(self).powerstate, ..*old(self) }),
            final(self).powerstate.same_history(old(self).powerstate),
            done <==> aggregate(
                old(self).powerstate.totals(),
                agents@,
                areas@,
                old(self).children@,
            ).fits(),
            done ==> final(self).powerstate.totals() == aggregate(
                old(self).powerstate.totals(),
                agents@,
                areas@,
                old(self).children@,
            ),
            !done ==> *final(self) == *old(self),
    {
        calc_power_from_child(&mut self.powerstate, &self.children, agents, areas)
    }
}

impl AgentTrait for Root {
    open spec fn spec_kind(&self) -> AgentKind {
        self.kind
    }

    open spec fn spec_index(&self) -> BaseUint {
        self.index
    }

    open spec fn spec_step(&self) -> Steps {
        self.step
    }

    open spec fn spec_powerstate(&self) -> PowerState {
        self.powerstate
    }

    open spec fn spec_children(&self) -> Vec<BaseUint> {
        self.children
    }

    fn kind(&self) -> (kind: &AgentKind) {
        &self.kind
    }

    fn index(&self) -> (index: &BaseUint) {
        &self.index
    }

    fn step(&self) -> (step: &Steps) {
        &self.step
    }

    fn powerstate(&self) -> (powerstate: &PowerState) {
        &self.powerstate
    }

    fn children(&self) -> (children: &Vec<BaseUint>) {
        &self.children
    }

    open spec fn spec_power_gen(&self) -> Option<PowerGeneration> {
        None
    }

    fn power_gen(&self) -> (unit: Option<&PowerGeneration>) {
        None
    }

    fn kind_mut(&mut self) -> (kind: &mut AgentKind)
        ensures
            *final(self) == (Root { kind: *final(kind), ..*old(self) }),
    {
        &mut self.kind
    }

    fn index_mut(&mut self) -> (index: &mut BaseUint)
        ensures
            *final(self) == (Root { index: *final(index), ..*old(self) }),
    {
        &mut self.index
    }

    fn step_mut(&mut self) -> (step: &mut Steps)
        ensures
            *final(self) == (Root { step: *final(step), ..*old(self) }),
    {
        &mut self.step
    }

    fn children_mut(&mut self) -> (children: &mut Vec<BaseUint>)
        ensures
            *final(self) == (Root { children: *final(children), ..*old(self) }),
    {
        &mut self.children
    }

    fn powerstate_mut(&mut self) -> (powerstate: &mut PowerState)
        ensures
            *final(self) == (Root { powerstate: *final(powerstate), ..*old(self) }),
    {
        &mut self.powerstate
    }

    fn power_gen_mut(&mut self) -> (unit: Option<&mut PowerGeneration>)
        ensures
            *final(self) == *old(self),
    {
        None
    }

    fn update_step(&mut self, step: Steps)
        ensures
            *final(self) == (Root { step, ..*old(self) }),
    {
        self.step = step;
    }
}

} // verus!
