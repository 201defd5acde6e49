//! The agents that make up the grid: the root, areas, netstations and
//! households.
//!
//! The agents of a model are kept in one list per kind. A table that is indexed
//! by the index of an agent in the graph tells where the agent is found, and
//! every agent names its children by their indices.
use crate::grid::{total_of, PowerGeneration, PowerState, PowerTotals};
use crate::util::{BaseUint, Steps, Watt};
use vstd::prelude::*;

mod area;
mod household;
mod netstation;
mod root;

pub use area::Area;
pub use household::Household;
pub use netstation::{child_infection_states, Netstation};
pub use root::Root;

verus! {

/// The kinds of agent that a grid is made of.
#[derive(Debug, Clone, PartialEq, Eq, Structural, Copy)]
pub enum AgentKind {
    /// Root of the Grid
    Root,
    /// Connections between other agents
    Connection,
    /// Area agent represents a larger geographical area.
    Area,
    /// Netstation are the local transformers that transform from High Voltage
    /// (HV) to Low Voltage (LV). They link households with areas.
    Netstation,
    /// Represents a single household. It may have a PV system.
    Household,
}

/// Where an agent is found: its kind and its place in the list of the agents
/// of that kind.
#[derive(Debug, Clone, PartialEq, Eq, Structural, Copy)]
pub struct AgentRef {
    /// Kind of agent.
    pub kind: AgentKind,
    /// Place of the agent in the list of the agents of its kind.
    pub position: usize,
}

/// The table of all agents of a model, in the order of their indices.
pub type AgentList = Vec<AgentRef>;

/// What every agent of the grid offers: read access to the fields that all
/// agents share, and a way to set the step.
pub trait AgentTrait {
    /// Kind of the agent.
    spec fn spec_kind(&self) -> AgentKind;

    /// Index of the agent in the graph.
    spec fn spec_index(&self) -> BaseUint;

    /// Current step of the agent.
    spec fn spec_step(&self) -> Steps;

    /// Power state of the agent.
    spec fn spec_powerstate(&self) -> PowerState;

    /// Indices of the children of the agent.
    spec fn spec_children(&self) -> Vec<BaseUint>;

    /// Read access to kind field.
    fn kind(&self) -> (kind: &AgentKind)
        ensures
            *kind == self.spec_kind(),
    ;

    /// Read access to index field.
    fn index(&self) -> (index: &BaseUint)
        ensures
            *index == self.spec_index(),
    ;

    /// Read access to step field.
    fn step(&self) -> (step: &Steps)
        ensures
            *step == self.spec_step(),
    ;

    /// Read access to powerstate field.
    fn powerstate(&self) -> (powerstate: &PowerState)
        ensures
            *powerstate == self.spec_powerstate(),
    ;

    /// Read access to children field.
    fn children(&self) -> (children: &Vec<BaseUint>)
        ensures
            *children == self.spec_children(),
    ;

    /// The power generation unit of the agent, if it has one.
    spec fn spec_power_gen(&self) -> Option<PowerGeneration>;

    /// Read access to the power generation unit, for an agent that has one.
    fn power_gen(&self) -> (unit: Option<&PowerGeneration>)
        ensures
            match unit {
                Some(unit) => self.spec_power_gen() == Some(*unit),
                None => self.spec_power_gen() is None,
            },
    ;

    /// Mutable access to the kind field.
    fn kind_mut(&mut self) -> (kind: &mut AgentKind)
        ensures
            *kind == old(self).spec_kind(),
            final(self).spec_kind() == *final(kind),
            final(self).spec_index() == old(self).spec_index(),
            final(self).spec_step() == old(self).spec_step(),
            final(self).spec_powerstate() == old(self).spec_powerstate(),
            final(self).spec_children() == old(self).spec_children(),
            final(self).spec_power_gen() == old(self).spec_power_gen(),
    ;

    /// Mutable access to the index field.
    fn index_mut(&mut self) -> (index: &mut BaseUint)
        ensures
            *index == old(self).spec_index(),
            final(self).spec_index() == *final(index),
            final(self).spec_kind() == old(self).spec_kind(),
            final(self).spec_step() == old(self).spec_step(),
            final(self).spec_powerstate() == old(self).spec_powerstate(),
            final(self).spec_children() == old(self).spec_children(),
            final(self).spec_power_gen() == old(self).spec_power_gen(),
    ;

    /// Mutable access to the step field.
    fn step_mut(&mut self) -> (step: &mut Steps)
        ensures
            *step == old(self).spec_step(),
            final(self).spec_step() == *final(step),
            final(self).spec_kind() == old(self).spec_kind(),
            final(self).spec_index() == old(self).spec_index(),
            final(self).spec_powerstate() == old(self).spec_powerstate(),
            final(self).spec_children() == old(self).spec_children(),
            final(self).spec_power_gen() == old(self).spec_power_gen(),
    ;

    /// Mutable access to the children field.
    fn children_mut(&mut self) -> (children: &mut Vec<BaseUint>)
        ensures
            *children == old(self).spec_children(),
            final(self).spec_children() == *final(children),
            final(self).spec_kind() == old(self).spec_kind(),
            final(self).spec_index() == old(self).spec_index(),
            final(self).spec_step() == old(self).spec_step(),
            final(self).spec_powerstate() == old(self).spec_powerstate(),
            final(self).spec_power_gen() == old(self).spec_power_gen(),
    ;

    /// Mutable access to the powerstate field.
    fn powerstate_mut(&mut self) -> (powerstate: &mut PowerState)
        ensures
            *powerstate == old(self).spec_powerstate(),
            final(self).spec_powerstate() == *final(powerstate),
            final(self).spec_kind() == old(self).spec_kind(),
            final(self).spec_index() == old(self).spec_index(),
            final(self).spec_step() == old(self).spec_step(),
            final(self).spec_children() == old(self).spec_children(),
            final(self).spec_power_gen() == old(self).spec_power_gen(),
    ;

    /// Mutable access to the power generation unit, for an agent that has one.
    fn power_gen_mut(&mut self) -> (unit: Option<&mut PowerGeneration>)
        ensures
            unit is Some <==> old(self).spec_power_gen() is Some,
            unit is Some ==> *unit->0 == old(self).spec_power_gen()->0 && final(self)
                .spec_power_gen() == Some(*final(unit->0)),
            unit is None ==> final(self).spec_power_gen() is None,
            final(self).spec_kind() == old(self).spec_kind(),
            final(self).spec_index() == old(self).spec_index(),
            final(self).spec_step() == old(self).spec_step(),
            final(self).spec_powerstate() == old(self).spec_powerstate(),
            final(self).spec_children() == old(self).spec_children(),
    ;

    /// Set the step field of the agent. Nothing else changes.
    fn update_step(&mut self, step: Steps)
        ensures
            final(self).spec_step() == step,
            final(self).spec_kind() == old(self).spec_kind(),
            final(self).spec_index() == old(self).spec_index(),
            final(self).spec_powerstate() == old(self).spec_powerstate(),
            final(self).spec_children() == old(self).spec_children(),
            final(self).spec_power_gen() == old(self).spec_power_gen(),
    ;
}

/// Whether every child is listed in the table and found in a list of the
/// given length.
pub open spec fn children_in_level(
    agents: Seq<AgentRef>,
    level_len: nat,
    children: Seq<BaseUint>,
) -> bool {
    forall|j: int|
        0 <= j < children.len() ==> (#[trigger] children[j]) < agents.len()
            && agents[children[j] as int].position < level_len
}

/// The power figures of the children, in the order in which they are named.
pub open spec fn child_figures<A: AgentTrait>(
    agents: Seq<AgentRef>,
    level: Seq<A>,
    children: Seq<BaseUint>,
) -> Seq<PowerTotals> {
    Seq::new(
        children.len(),
        |j: int| level[agents[children[j] as int].position as int].spec_powerstate().totals(),
    )
}

/// The figures that an agent shows after it has summed up its children: the
/// figure by figure sum of the children, or its own figures where it has no
/// children.
pub open spec fn aggregate<A: AgentTrait>(
    own: PowerTotals,
    agents: Seq<AgentRef>,
    level: Seq<A>,
    children: Seq<BaseUint>,
) -> PowerTotals {
    if children.len() == 0 {
        own
    } else {
        total_of(child_figures(agents, level, children))
    }
}

/// Determines the power state of an agent with children: its four figures are
/// replaced by the figure by figure sum of the current figures of its children,
/// which are looked up through the table in the list of their kind. An agent
/// without children keeps its figures. The history is not touched.
///
/// Tells whether the sums are within the range of `Watt`. If they are not, the
/// figures stay as they are.
pub fn calc_power_from_child<A: AgentTrait>(
    powerstate: &mut PowerState,
    children: &Vec<BaseUint>,
    agents: &AgentList,
    level: &Vec<A>,
) -> (done: bool)
    requires
        children_in_level(agents@, level@.len(), children@),
    ensures
        final(powerstate).same_history(*old(powerstate)),
        done <==> aggregate(old(powerstate).totals(), agents@, level@, children@).fits(),
        done ==> final(powerstate).totals() == aggregate(
            old(powerstate).totals(),
            agents@,
            level@,
            children@,
        ),
        !done ==> *final(powerstate) == *old(powerstate),
{
    if children.len() == 0 {
        return true;
    }
    let ghost figures = child_figures(agents@, level@, children@);
    let mut used: i128 = 0;
    let mut reported: i128 = 0;
    let mut error: i128 = 0;
    let mut generated: i128 = 0;
    let mut i: usize = 0;
    while i < children.len()
        invariant
            i <= children.len(),
            children_in_level(agents@, level@.len(), children@),
            figures == child_figures(agents@, level@, children@),
            used == total_of(figures.take(i as int)).used,
            reported == total_of(figures.take(i as int)).reported,
            error == total_of(figures.take(i as int)).error,
            generated == total_of(figures.take(i as int)).generated,
            -0x8000_0000_0000_0000 * i <= used <= 0x8000_0000_0000_0000 * i,
            -0x8000_0000_0000_0000 * i <= reported <= 0x8000_0000_0000_0000 * i,
            -0x8000_0000_0000_0000 * i <= error <= 0x8000_0000_0000_0000 * i,
            -0x8000_0000_0000_0000 * i <= generated <= 0x8000_0000_0000_0000 * i,
        decreases children.len() - i,
    {
        let place = agents[children[i] as usize];
        let child = level[place.position].powerstate();
        proof {
            assert(figures.take(i + 1).drop_last() =~= figures.take(i as int));
            assert(figures.take(i + 1).last() == child.totals());
        }
        used = used + child.power_used.0 as i128;
        reported = reported + child.power_reported.0 as i128;
        error = error + child.power_error.0 as i128;
        generated = generated + child.power_generated.0 as i128;
        i = i + 1;
    }
    proof {
        assert(figures.take(children.len() as int) =~= figures);
    }
    if fits_watt(used) && fits_watt(reported) && fits_watt(error) && fits_watt(generated) {
        powerstate.power_used = Watt(used as i64);
        powerstate.power_reported = Watt(reported as i64);
        powerstate.power_error = Watt(error as i64);
        powerstate.power_generated = Watt(generated as i64);
        true
    } else {
        false
    }
}

/// Whether the value is within the range of `Watt`.
fn fits_watt(value: i128) -> (fits: bool)
    ensures
        fits == (i64::MIN <= value <= i64::MAX),
{
    value >= i64::MIN as i128 && value <= i64::MAX as i128
}

} // verus!
