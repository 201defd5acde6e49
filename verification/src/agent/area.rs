//! The area agent: a geographical region between the root and the
//! netstations.
use crate::agent::{
    aggregate, calc_power_from_child, children_in_level, AgentKind, AgentList, AgentTrait,
    Netstation,
};
use crate::grid::{PowerGeneration, PowerState, PowerTotals};
use crate::util::{BaseUint, Steps};
use vstd::prelude::*;

verus! {

/// The Area agent. A level below the root and above the netstations.
///
/// An area is a representation of a big geographical region that is used by a
/// grid operator to divide the grid in multiple pieces.
#[derive(Debug)]
pub struct Area {
    /// Kind of agent.
    pub kind: AgentKind,
    /// Index used in the graph.
    pub index: BaseUint,
    /// Current step of the model.
    pub step: Steps,
    /// Indices of the children this agent has according to the graph.
    pub children: Vec<BaseUint>,
    /// The current power state of the agent. Changes each step.
    pub powerstate: PowerState,
}

impl Area {
    /// Whether this is an area as it is created for the given index, with the
    /// given children: at step 0, with no power and no history.
    pub open spec fn is_created(self, index: BaseUint, children: Seq<BaseUint>) -> bool {
        &&& self.kind == AgentKind::Area
        &&& self.index == index
        &&& self.step == Steps(0)
        &&& self.children@ == children
        &&& self.powerstate.is_fresh(PowerTotals::zero())
    }

    /// Create a new area agent using the index provided by the graph of the
    /// model.
    pub fn new(index: BaseUint) -> (area: Self)
        ensures
            area.is_created(index, Seq::empty()),
    {
        Self {
            kind: AgentKind::Area,
            index,
            step: Steps(0),
            children: Vec::new(),
            powerstate: PowerState::new(),
        }
    }

}

impl Area {
    /// Determines the power state of the area from its children: the four
    /// figures become the figure by figure sum of the current figures of the
    /// children, which are looked up through the table in the list of
    /// netstations. A area without children keeps its figures. Nothing else
    /// changes.
    ///
    /// Tells whether the sums are within the range of `Watt`. If they are not,
    /// the figures stay as they are.
    pub fn calc_power_from_child(&mut self, agents: &AgentList, netstations: &Vec<Netstation>) -> (done: bool)
        requires
            children_in_level(agents@, netstations@.len(), old(self).children@),
        ensures
            *final(self) == (Area { powerstate: final(self).powerstate, ..*old(self) }),
            final(self).powerstate.same_history(old(self).powerstate),
            done <==> aggregate(
                old(self).powerstate.totals(),
                agents@,
                netstations@,
                old(self).children@,
            ).fits(),
            done ==> final(self).powerstate.totals() == aggregate(
                old(self).powerstate.totals(),
                agents@,
                netstations@,
                old(self).children@,
            ),
            !done ==> *final(self) == *old(self),
    {
        calc_power_from_child(&mut self.powerstate, &self.children, agents, netstations)
    }
}

impl AgentTrait for Area {
    open spec fn spec_kind(&self) -> AgentKind {
        self.kind
    }

    open spec fn spec_index(&self) -> BaseUint {
        self.index
    }

    open spec fn spec_step(&self) -> Steps {
        self.step
    }

    open spec fn spec_powerstate(&self) -> PowerState {
        self.powerstate
    }

    open spec fn spec_children(&self) -> Vec<BaseUint> {
        self.children
    }

    fn kind(&self) -> (kind: &AgentKind) {
        &self.kind
    }

    fn index(&self) -> (index: &BaseUint) {
        &self.index
    }

    fn step(&self) -> (step: &Steps) {
        &self.step
    }

    fn powerstate(&self) -> (powerstate: &PowerState) {
        &self.powerstate
    }

    fn children(&self) -> (children: &Vec<BaseUint>) {
        &self.children
    }

    open spec fn spec_power_gen(&self) -> Option<PowerGeneration> {
        None
    }

    fn power_gen(&self) -> (unit: Option<&PowerGeneration>) {
        None
    }

    fn kind_mut(&mut self) -> (kind: &mut AgentKind)
        ensures
            *final(self) == (Area { kind: *final(kind), ..*old(self) }),
    {
        &mut self.kind
    }

    fn index_mut(&mut self) -> (index: &mut BaseUint)
        ensures
            *final(self) == (Area { index: *final(index), ..*old(self) }),
    {
        &mut self.index
    }

    fn step_mut(&mut self) -> (step: &mut Steps)
        ensures
            *final(self) == (Area { step: *final(step), ..*old(self) }),
    {
        &mut self.step
    }

    fn children_mut(&mut self) -> (children: &mut Vec<BaseUint>)
        ensures
            *final(self) == (Area { children: *final(children), ..*old(self) }),
    {
        &mut self.children
    }

    fn powerstate_mut(&mut self) -> (powerstate: &mut PowerState)
        ensures
            *final(self) == (Area { powerstate: *final(powerstate), ..*old(self) }),
    {
        &mut self.powerstate
    }

    fn power_gen_mut(&mut self) -> (unit: Option<&mut PowerGeneration>)
        ensures
            *final(self) == *old(self),
    {
        None
    }

    fn update_step(&mut self, step: Steps)
        ensures
            *final(self) == (Area { step, ..*old(self) }),
    {
        self.step = step;
    }
}

} // verus!
