//! The household agent: a leaf of the grid with a power generation unit.
use crate::agent::{AgentKind, AgentTrait};
use crate::grid::{InfectionState, PowerGeneration, PowerState, PowerTotals};
use crate::util::{BaseUint, Steps, Watt};
use vstd::prelude::*;

verus! {

/// The Household agent. A level below the netstation and lowest on the grid.
///
/// A household is a representation of a single house that is connected to the
/// powergrid. It can have a PV system to generate its own power. These power
/// generation units can be vulnerable to a cyber attack.
#[derive(Debug)]
pub struct Household {
    /// Kind of agent.
    pub kind: AgentKind,
    /// Index used in the graph.
    pub index: BaseUint,
    /// Current step of the model.
    pub step: Steps,
    /// Indices of the children this agent has according to the graph.
    pub children: Vec<BaseUint>,
    /// The current power state of the agent. Changes each step.
    pub powerstate: PowerState,
    /// A household is the only agent that generates power. This field
    /// contains its power generation unit.
    pub power_generation: PowerGeneration,
}

impl Household {
    /// Whether this household is `other` with the infection state of its unit
    /// set to `state`.
    pub open spec fn same_but_infection(self, other: Household, state: InfectionState) -> bool {
        &&& self.kind == other.kind
        &&& self.index == other.index
        &&& self.step == other.step
        &&& self.children == other.children
        &&& self.powerstate == other.powerstate
        &&& self.power_generation.infection_state == state
        &&& self.power_generation.index == other.power_generation.index
        &&& self.power_generation.average_power_usage
            == other.power_generation.average_power_usage
        &&& self.power_generation.has_generation == other.power_generation.has_generation
        &&& self.power_generation.day_profile == other.power_generation.day_profile
    }

    /// Whether this household is `other` with the given figures, and with the
    /// records of the power state left as they are.
    pub open spec fn same_but_power(
        self,
        other: Household,
        generated: Watt,
        used: Watt,
        reported: Watt,
        error: Watt,
    ) -> bool {
        &&& self.kind == other.kind
        &&& self.index == other.index
        &&& self.step == other.step
        &&& self.children == other.children
        &&& self.power_generation == other.power_generation
        &&& self.powerstate.same_history(other.powerstate)
        &&& self.powerstate.power_generated == generated
        &&& self.powerstate.power_used == used
        &&& self.powerstate.power_reported == reported
        &&& self.powerstate.power_error == error
    }

    /// Whether this household is `other` after the falsified generated and
    /// reported power were put in place: the power used stays as measured, and
    /// the error is the reported power minus the net draw.
    pub open spec fn is_falsified(self, other: Household, falsified: (Watt, Watt)) -> bool {
        self.same_but_power(
            other,
            falsified.0,
            other.powerstate.power_used,
            falsified.1,
            Watt(
                PowerState::attacked_error(other.powerstate.power_used, falsified.0, falsified.1) as i64,
            ),
        )
    }

    /// Whether this household is `other` with the clean figures of its unit
    /// for its current step: the power used and generated as the unit gives
    /// them, and the power used minus the power generated both as the reported
    /// power and as the power error. A household without generation terms so
    /// generates nothing and shows what it uses as its error.
    pub open spec fn is_clean(self, other: Household) -> bool {
        self.same_but_power(
            other,
            other.power_generation.spec_calc_power(other.step).0,
            other.power_generation.spec_calc_power(other.step).1,
            other.power_generation.spec_calc_power(other.step).2,
            other.power_generation.spec_calc_power(other.step).2,
        )
    }

    /// Read access to the power generation unit.
    pub fn power_generation(&self) -> (unit: &PowerGeneration)
        ensures
            *unit == self.power_generation,
    {
        &self.power_generation
    }

    /// Whether this is a household as it is created for the given index and
    /// power generation unit, with the given children: at step 0, with no power
    /// and no history.
    pub open spec fn is_created(
        self,
        index: BaseUint,
        power_generation: PowerGeneration,
        children: Seq<BaseUint>,
    ) -> bool {
        &&& self.kind == AgentKind::Household
        &&& self.index == index
        &&& self.step == Steps(0)
        &&& self.children@ == children
        &&& self.powerstate.is_fresh(PowerTotals::zero())
        &&& self.power_generation == power_generation
    }

    /// Gives mutable access to the power generation unit.
    pub fn power_generation_mut(&mut self) -> (unit: &mut PowerGeneration)
        ensures
            *unit == old(self).power_generation,
            *final(self) == (Household { power_generation: *final(unit), ..*old(self) }),
    {
        &mut self.power_generation
    }

    /// Creates a new household agent, using the index of the graph and the
    /// power generation unit provided.
    pub fn new(index: BaseUint, power_generation: PowerGeneration) -> (household: Self)
        ensures
            household.is_created(index, power_generation, Seq::empty()),
    {
        Self {
            kind: AgentKind::Household,
            index,
            step: Steps(0),
            children: Vec::new(),
            powerstate: PowerState::new(),
            power_generation,
        }
    }

    /// Calculates the power state of the agent, without it being impacted by a
    /// cyber attack.
    pub fn clean_power_gen(&mut self)
        requires
            old(self).power_generation.wf(),
        ensures
            final(self).is_clean(*old(self)),
            final(self).powerstate.power_error.0 == final(self).powerstate.power_used.0 - final(self)
                .powerstate.power_generated.0,
            !old(self).power_generation.has_generation ==> final(self).powerstate.power_generated
                == Watt(0) && final(self).powerstate.power_error == final(self)
                .powerstate.power_used,
    {
        let (generated, used, error) = self.power_generation.calc_power(&self.step);
        self.powerstate.power_used = used;
        self.powerstate.power_generated = generated;
        self.powerstate.power_reported = error;
        self.powerstate.power_error = error;
    }

}

impl AgentTrait for Household {
    open spec fn spec_kind(&self) -> AgentKind {
        self.kind
    }

    open spec fn spec_index(&self) -> BaseUint {
        self.index
    }

    open spec fn spec_step(&self) -> Steps {
        self.step
    }

    open spec fn spec_powerstate(&self) -> PowerState {
        self.powerstate
    }

    open spec fn spec_children(&self) -> Vec<BaseUint> {
        self.children
    }

    fn kind(&self) -> (kind: &AgentKind) {
        &self.kind
    }

    fn index(&self) -> (index: &BaseUint) {
        &self.index
    }

    fn step(&self) -> (step: &Steps) {
        &self.step
    }

    fn powerstate(&self) -> (powerstate: &PowerState) {
        &self.powerstate
    }

    fn children(&self) -> (children: &Vec<BaseUint>) {
        &self.children
    }

    open spec fn spec_power_gen(&self) -> Option<PowerGeneration> {
        Some(self.power_generation)
    }

    fn power_gen(&self) -> (unit: Option<&PowerGeneration>) {
        Some(&self.power_generation)
    }

    fn kind_mut(&mut self) -> (kind: &mut AgentKind)
        ensures
            *final(self) == (Household { kind: *final(kind), ..*old(self) }),
    {
        &mut self.kind
    }

    fn index_mut(&mut self) -> (index: &mut BaseUint)
        ensures
            *final(self) == (Household { index: *final(index), ..*old(self) }),
    {
        &mut self.index
    }

    fn step_mut(&mut self) -> (step: &mut Steps)
        ensures
            *final(self) == (Household { step: *final(step), ..*old(self) }),
    {
        &mut self.step
    }

    fn children_mut(&mut self) -> (children: &mut Vec<BaseUint>)
        ensures
            *final(self) == (Household { children: *final(children), ..*old(self) }),
    {
        &mut self.children
    }

    fn powerstate_mut(&mut self) -> (powerstate: &mut PowerState)
        ensures
            *final(self) == (Household { powerstate: *final(powerstate), ..*old(self) }),
    {
        &mut self.powerstate
    }

    fn power_gen_mut(&mut self) -> (unit: Option<&mut PowerGeneration>)
        ensures
            *final(self) == (Household { power_generation: *final(unit->0), ..*old(self) }),
    {
        Some(&mut self.power_generation)
    }

    fn update_step(&mut self, step: Steps)
        ensures
            *final(self) == (Household { step, ..*old(self) }),
    {
        self.step = step;
    }
}

} // verus!
