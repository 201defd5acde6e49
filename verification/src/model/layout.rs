//! The plan of a grid: which households stand under which netstation of which
//! area, and what that means for the order in which the agents are created.
use crate::agent::{AgentKind, AgentRef, Household};
use crate::grid::PowerGeneration;
use vstd::prelude::*;

verus! {

/// The power generation units of the households of one netstation.
pub type NetstationPlan = Vec<PowerGeneration>;

/// The netstations of one area.
pub type AreaPlan = Vec<NetstationPlan>;

/// The areas of a grid.
pub type GridPlan = Vec<AreaPlan>;

/// The kinds of the agents in the table, in the order of their indices.
pub open spec fn kinds_of(agents: Seq<AgentRef>) -> Seq<AgentKind> {
    Seq::new(agents.len(), |i: int| agents[i].kind)
}

/// The kinds of the agents that a netstation with the given number of
/// households brings, in the order of their creation: the netstation, then its
/// households.
pub open spec fn netstation_kinds(households: nat) -> Seq<AgentKind> {
    seq![AgentKind::Netstation] + Seq::new(households, |i: int| AgentKind::Household)
}

/// The kinds of the agents that the netstations of an area bring, in the order
/// of their creation.
pub open spec fn netstations_kinds(area: Seq<NetstationPlan>) -> Seq<AgentKind>
    decreases area.len(),
{
    if area.len() == 0 {
        Seq::empty()
    } else {
        netstations_kinds(area.drop_last()) + netstation_kinds(area.last()@.len())
    }
}

/// The kinds of the agents that the areas of a grid bring, in the order of
/// their creation: each area, then its netstations, each followed by its
/// households.
pub open spec fn areas_kinds(layout: Seq<AreaPlan>) -> Seq<AgentKind>
    decreases layout.len(),
{
    if layout.len() == 0 {
        Seq::empty()
    } else {
        areas_kinds(layout.drop_last()) + seq![AgentKind::Area] + netstations_kinds(layout.last()@)
    }
}

/// The kinds of all agents of a grid in the order of their creation, which is
/// the order of their indices: the root, then each area, then that area's
/// netstations, then each netstation's households.
pub open spec fn planned_kinds(layout: Seq<AreaPlan>) -> Seq<AgentKind> {
    seq![AgentKind::Root] + areas_kinds(layout)
}

/// The units of the households of the netstations of an area, in the order of
/// their creation.
pub open spec fn area_units(area: Seq<NetstationPlan>) -> Seq<PowerGeneration>
    decreases area.len(),
{
    if area.len() == 0 {
        Seq::empty()
    } else {
        area_units(area.drop_last()) + area.last()@
    }
}

/// The units of all households of a grid, in the order of their creation.
pub open spec fn planned_units(layout: Seq<AreaPlan>) -> Seq<PowerGeneration>
    decreases layout.len(),
{
    if layout.len() == 0 {
        Seq::empty()
    } else {
        planned_units(layout.drop_last()) + area_units(layout.last()@)
    }
}

/// Whether the two units have the same state, index, average usage and
/// curves.
pub open spec fn same_unit(unit: PowerGeneration, other: PowerGeneration) -> bool {
    &&& unit.infection_state == other.infection_state
    &&& unit.index == other.index
    &&& unit.average_power_usage == other.average_power_usage
    &&& unit.has_generation == other.has_generation
    &&& unit.day_profile@ == other.day_profile@
}

/// Whether the households have the given units, one each and in this order.
pub open spec fn units_match(households: Seq<Household>, units: Seq<PowerGeneration>) -> bool {
    &&& households.len() == units.len()
    &&& forall|p: int|
        0 <= p < households.len() ==> same_unit(
            (#[trigger] households[p]).power_generation,
            units[p],
        )
}

/// Whether every unit of the sequence has a valid profile.
pub open spec fn units_are_valid(units: Seq<PowerGeneration>) -> bool {
    forall|p: int| 0 <= p < units.len() ==> (#[trigger] units[p]).wf()
}

/// The netstations of an area up to and with the one at place `n` bring what
/// the netstations before it bring, and then what this one brings.
pub proof fn lemma_netstations_take(area: Seq<NetstationPlan>, n: int)
    requires
        0 <= n < area.len(),
    ensures
        netstations_kinds(area.take(n + 1)) == netstations_kinds(area.take(n)) + netstation_kinds(
            area[n]@.len(),
        ),
        area_units(area.take(n + 1)) == area_units(area.take(n)) + area[n]@,
{
    assert(area.take(n + 1).drop_last() =~= area.take(n));
    assert(area.take(n + 1).last() == area[n]);
}

/// The areas of a grid up to and with the one at place `a` bring what the
/// areas before it bring, and then what this one brings.
pub proof fn lemma_areas_take(layout: Seq<AreaPlan>, a: int)
    requires
        0 <= a < layout.len(),
    ensures
        areas_kinds(layout.take(a + 1)) == areas_kinds(layout.take(a)) + seq![AgentKind::Area]
            + netstations_kinds(layout[a]@),
        planned_units(layout.take(a + 1)) == planned_units(layout.take(a)) + area_units(
            layout[a]@,
        ),
{
    assert(layout.take(a + 1).drop_last() =~= layout.take(a));
    assert(layout.take(a + 1).last() == layout[a]);
}

/// A part of an area does not bring more agents or units than the whole area.
pub proof fn lemma_netstations_grow(area: Seq<NetstationPlan>, n: int)
    requires
        0 <= n <= area.len(),
    ensures
        netstations_kinds(area.take(n)).len() <= netstations_kinds(area).len(),
        n < area.len() ==> netstations_kinds(area.take(n)).len() + netstation_kinds(
            area[n]@.len(),
        ).len() <= netstations_kinds(area).len(),
    decreases area.len() - n,
{
    if n < area.len() {
        lemma_netstations_take(area, n);
        lemma_netstations_grow(area, n + 1);
    } else {
        assert(area.take(n) =~= area);
    }
}

/// A part of a grid does not bring more agents than the whole grid.
pub proof fn lemma_areas_grow(layout: Seq<AreaPlan>, a: int)
    requires
        0 <= a <= layout.len(),
    ensures
        areas_kinds(layout.take(a)).len() <= areas_kinds(layout).len(),
        a < layout.len() ==> areas_kinds(layout.take(a)).len() + 1 + netstations_kinds(
            layout[a]@,
        ).len() <= areas_kinds(layout).len(),
    decreases layout.len() - a,
{
    if a < layout.len() {
        lemma_areas_take(layout, a);
        lemma_areas_grow(layout, a + 1);
    } else {
        assert(layout.take(a) =~= layout);
    }
}

} // verus!
