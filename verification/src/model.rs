//! Modelling the grid by bringing the other parts together.
use crate::agent::{AgentKind, AgentList, AgentRef, Area, Household, Netstation, Root};
use crate::grid::{check_profile, Grid, ReservePower};
use crate::util::{BaseInt, BaseUint, ModelError, Watt};
use vstd::prelude::*;
use vstd::string::StringExecFns;

mod builder;
mod determinism;
mod laws;
mod layout;
mod modelparameters;
mod mygraph;
mod run;
mod step;

pub use builder::{
    count_kind, extends, hangs_under, kind_above, lemma_count_kind_of_prefix,
    lemma_count_kind_step, lemma_targets_ascend, TreeBuilder,
};
pub use determinism::{
    alike, alike_action, alike_area, alike_attack, alike_event, alike_freq, alike_grid,
    alike_household, alike_information, alike_netstation, alike_param, alike_report, alike_root,
    alike_volt, alike_warning, alike_warnings, lemma_built_alike, lemma_hangs_under_one,
    lemma_runs_are_determined, Course,
};
pub use laws::lemma_total_of_zeros;
pub use layout::{
    area_units, areas_kinds, kinds_of, lemma_areas_grow, lemma_areas_take, lemma_netstations_grow,
    lemma_netstations_take, netstation_kinds, netstations_kinds, planned_kinds, planned_units,
    same_unit, units_are_valid, units_match, AreaPlan, GridPlan, NetstationPlan,
};
pub use modelparameters::ModelParameters;
pub use mygraph::{
    as_nodes, ascending, decimal_text, digit_text, edge_refused_text, graph_edges, graph_nodes,
    has_edge, kind_text, lemma_ascending_is_unique, lemma_targets_are_edge_targets,
    node_mismatch_text, strictly_ascending, targets_from, MyGraph, MAX_EDGES, MAX_NODES,
};
pub use run::{needed_text, order_error_text, StepAction, StepEvent, StepPhase, StepRun};
pub use step::{indices_of_kind, overflow_error_text, BoundaryReport, GridInformation};

verus! {

/// Struct for creating and running a model based on the respective
/// parameters.
///
/// The agents are kept in one list per kind, each in the order in which the
/// agents were created. The table `agents` tells for every index of the graph
/// where the agent with that index is found.
pub struct Model {
    /// The parameters of the model.
    pub param: ModelParameters,
    /// The graph of the model
    pub graph: MyGraph,
    /// The table of the agents in the model, in the order of their indices.
    pub agents: AgentList,
    /// ReservePower
    pub reserve_power: ReservePower,
    /// The root agent of the model.
    pub root: Root,
    /// The area agents that are part of the model.
    pub areas: Vec<Area>,
    /// The netstation agents that are part of the model.
    pub netstations: Vec<Netstation>,
    /// The household agents that are part of the model.
    pub households: Vec<Household>,
}

/// Whether every child is listed in the table as an agent of the given kind.
pub open spec fn children_of_kind(agents: Seq<AgentRef>, children: Seq<BaseUint>, kind: AgentKind) -> bool {
    forall|j: int|
        0 <= j < children.len() ==> (#[trigger] children[j]) < agents.len()
            && agents[children[j] as int].kind == kind
}

impl Model {
    /// Whether the entry of the table for the given index points to an agent
    /// that has this index.
    pub open spec fn entry_is_valid(&self, index: int) -> bool {
        let entry = self.agents@[index];
        match entry.kind {
            AgentKind::Root => index == 0 && entry.position == 0,
            AgentKind::Connection => false,
            AgentKind::Area => entry.position < self.areas@.len()
                && self.areas@[entry.position as int].index == index,
            AgentKind::Netstation => entry.position < self.netstations@.len()
                && self.netstations@[entry.position as int].index == index,
            AgentKind::Household => entry.position < self.households@.len()
                && self.households@[entry.position as int].index == index,
        }
    }

    /// The table and the lists of agents fit together.
    ///
    /// Every entry of the table points to the agent with its index, the root
    /// has index 0, the root has areas as children, an area netstations, a
    /// netstation households and a household none, and the number of agents, and
    /// of the children of a netstation, is within what the graph can hold.
    pub open spec fn tree_wf(&self) -> bool {
        &&& self.agents@.len() == 1 + self.areas@.len() + self.netstations@.len()
            + self.households@.len()
        &&& self.agents@.len() <= MAX_NODES
        &&& self.root.index == 0
        &&& self.agents@[0].kind == AgentKind::Root
        &&& forall|i: int| 0 <= i < self.agents@.len() ==> self.entry_is_valid(i)
        &&& children_of_kind(self.agents@, self.root.children@, AgentKind::Area)
        &&& forall|p: int|
            0 <= p < self.areas@.len() ==> children_of_kind(
                self.agents@,
                (#[trigger] self.areas@[p]).children@,
                AgentKind::Netstation,
            )
        &&& forall|p: int|
            0 <= p < self.netstations@.len() ==> children_of_kind(
                self.agents@,
                (#[trigger] self.netstations@[p]).children@,
                AgentKind::Household,
            ) && self.netstations@[p].children@.len() <= MAX_NODES
        &&& forall|p: int|
            0 <= p < self.households@.len() ==> (#[trigger] self.households@[p]).children@.len()
                == 0
    }

    /// The model is fit to take a step: its tree is well-formed, every power
    /// generation unit has a valid profile, the reserve is within its limits,
    /// and the history of every power state is well-formed.
    pub open spec fn wf(&self) -> bool {
        &&& self.tree_wf()
        &&& self.reserve_power.wf()
        &&& forall|p: int|
            0 <= p < self.households@.len() ==> (#[trigger] self.households@[p]).power_generation.wf()
        &&& self.histories_wf()
    }

    /// The history of every power state is well-formed.
    pub open spec fn histories_wf(&self) -> bool {
        &&& self.root.powerstate.wf()
        &&& forall|p: int| 0 <= p < self.areas@.len() ==> (#[trigger] self.areas@[p]).powerstate.wf()
        &&& forall|p: int|
            0 <= p < self.netstations@.len() ==> (#[trigger] self.netstations@[p]).powerstate.wf()
        &&& forall|p: int|
            0 <= p < self.households@.len() ==> (#[trigger] self.households@[p]).powerstate.wf()
    }
}

/// The parameter error about the grid for a reserve that can not be set up.
fn reserve_error() -> (error: ModelError)
    ensures
        error.is_param_error(reserve_error_text(), "grid"@),
{
    ModelError::ParamError {
        msg: String::from_str("the energy storage and the generation per tick must not be negative"),
        context: String::from_str("grid"),
    }
}

/// The parameter error about the power generation for a unit with a bad profile.
fn unit_error() -> (error: ModelError)
    ensures
        error.is_param_error(unit_error_text(), "power generation"@),
{
    ModelError::ParamError {
        msg: String::from_str(
            "the daily profile needs one point per tick of the day, each within the watt range",
        ),
        context: String::from_str("power generation"),
    }
}

/// What the error for a reserve that can not be set up says.
pub open spec fn reserve_error_text() -> Seq<char> {
    "the energy storage and the generation per tick must not be negative"@
}

/// What the error for a unit without a valid profile says.
pub open spec fn unit_error_text() -> Seq<char> {
    "the daily profile needs one point per tick of the day, each within the watt range"@
}

impl Model {
    /// Creates the graph and the agents of a grid with the given layout, in
    /// this order: the root, then each area, then that area's netstations, then
    /// each netstation's households. Every agent gets the next free index and
    /// is entered by an edge from the agent it stands under.
    ///
    /// This succeeds exactly if the graph can hold all agents and every unit
    /// of the layout has a valid profile. A graph error tells that there are
    /// more agents than the graph can hold, a parameter error that a unit has
    /// no valid profile; where both are the case, the one that is met first in
    /// the order of creation is told.
    pub fn generate_graph_and_agents(grid_param: &Grid, layout: &GridPlan) -> (built: Result<
        TreeBuilder,
        ModelError,
    >)
        ensures
            built is Ok <==> planned_kinds(layout@).len() <= MAX_NODES && units_are_valid(
                planned_units(layout@),
            ),
            built is Ok ==> {
                &&& built->Ok_0.inv()
                &&& built->Ok_0.is_fresh(grid_param)
                &&& kinds_of(built->Ok_0.agents@) == planned_kinds(layout@)
                &&& units_match(built->Ok_0.households@, planned_units(layout@))
            },
            built is Err ==> match built->Err_0 {
                ModelError::GraphError(_) => planned_kinds(layout@).len() > MAX_NODES,
                ModelError::ParamError { .. } => !units_are_valid(planned_units(layout@))
                    && built->Err_0.is_param_error(unit_error_text(), "power generation"@),
                _ => false,
            },
    {
        let mut builder = match TreeBuilder::new(grid_param) {
            Ok(builder) => builder,
            Err(error) => {
                return Err(error);
            },
        };
        proof {
            assert(layout@.take(0) =~= Seq::<AreaPlan>::empty());
            assert(kinds_of(builder.agents@) =~= planned_kinds(layout@.take(0)));
        }
        let mut a: usize = 0;
        while a < layout.len()
            invariant
                a <= layout.len(),
                builder.inv(),
                builder.is_fresh(grid_param),
                kinds_of(builder.agents@) == planned_kinds(layout@.take(a as int)),
                units_match(builder.households@, planned_units(layout@.take(a as int))),
                units_are_valid(planned_units(layout@.take(a as int))),
            decreases layout.len() - a,
        {
            let ghost kinds_before_area = kinds_of(builder.agents@);
            let ghost units_before_area = planned_units(layout@.take(a as int));
            let ghost before_area = builder;
            proof {
                lemma_areas_grow(layout@, a as int);
                lemma_areas_take(layout@, a as int);
            }
            let area_index = match builder.add_area() {
                Ok(index) => index,
                Err(error) => {
                    proof {
                        assert(kinds_before_area.len() == MAX_NODES);
                    }
                    return Err(error);
                },
            };
            proof {
                builder.lemma_added_keeps_fresh(&before_area, AgentKind::Area, 0, grid_param);
                assert(kinds_of(builder.agents@) =~= kinds_before_area + seq![AgentKind::Area]
                    + netstations_kinds(layout@[a as int]@.take(0))) by {
                    assert(layout@[a as int]@.take(0) =~= Seq::<NetstationPlan>::empty());
                    assert forall|i: int| 0 <= i < before_area.agents@.len() implies
                        builder.agents@[i] == before_area.agents@[i] by {
                        assert(builder.agents@.drop_last()[i] == builder.agents@[i]);
                    }
                }
                assert(layout@[a as int]@.take(0) =~= Seq::<NetstationPlan>::empty());
            }
            let area = &layout[a];
            let mut n: usize = 0;
            while n < area.len()
                invariant
                    n <= area.len(),
                    a < layout.len(),
                    *area == layout@[a as int],
                    builder.inv(),
                    builder.is_fresh(grid_param),
                    area_index < builder.agents@.len(),
                    builder.agents@[area_index as int].kind == AgentKind::Area,
                    builder.is_last_of_kind(area_index as int),
                    kinds_of(builder.agents@) == kinds_before_area + seq![AgentKind::Area]
                        + netstations_kinds(area@.take(n as int)),
                    kinds_before_area == planned_kinds(layout@.take(a as int)),
                    units_before_area == planned_units(layout@.take(a as int)),
                    units_match(
                        builder.households@,
                        units_before_area + area_units(area@.take(n as int)),
                    ),
                    units_are_valid(units_before_area + area_units(area@.take(n as int))),
                    areas_kinds(layout@.take(a as int)).len() + 1 + netstations_kinds(
                        layout@[a as int]@,
                    ).len() <= areas_kinds(layout@).len(),
                decreases area.len() - n,
            {
                let ghost kinds_before_netstation = kinds_of(builder.agents@);
                let ghost units_before_netstation = units_before_area + area_units(
                    area@.take(n as int),
                );
                let ghost before_netstation = builder;
                proof {
                    lemma_netstations_grow(area@, n as int);
                    lemma_netstations_take(area@, n as int);
                }
                let netstation_index = match builder.add_netstation(area_index, grid_param) {
                    Ok(index) => index,
                    Err(error) => {
                        proof {
                            assert(kinds_before_netstation.len() == MAX_NODES);
                        }
                        return Err(error);
                    },
                };
                proof {
                    builder.lemma_added_keeps_fresh(
                        &before_netstation,
                        AgentKind::Netstation,
                        area_index,
                        grid_param,
                    );
                    assert forall|i: int| 0 <= i < before_netstation.agents@.len() implies
                        builder.agents@[i] == before_netstation.agents@[i] by {
                        assert(builder.agents@.drop_last()[i] == builder.agents@[i]);
                    }
                    assert(kinds_of(builder.agents@) =~= kinds_before_netstation
                        + netstation_kinds(0));
                    assert(units_before_netstation + area@[n as int]@.take(0)
                        =~= units_before_netstation);
                    assert(kinds_before_netstation.len() + netstation_kinds(
                        area@[n as int]@.len(),
                    ).len() <= planned_kinds(layout@).len());
                }
                let netstation = &area[n];
                let mut h: usize = 0;
                while h < netstation.len()
                    invariant
                        h <= netstation.len(),
                        n < area.len(),
                        a < layout.len(),
                        *area == layout@[a as int],
                        *netstation == area@[n as int],
                        builder.inv(),
                        builder.is_fresh(grid_param),
                        area_index < netstation_index < builder.agents@.len(),
                        builder.agents@[area_index as int].kind == AgentKind::Area,
                        builder.is_last_of_kind(area_index as int),
                        builder.agents@[netstation_index as int].kind == AgentKind::Netstation,
                        builder.is_last_of_kind(netstation_index as int),
                        kinds_of(builder.agents@) == kinds_before_netstation + netstation_kinds(
                            h as nat,
                        ),
                        kinds_before_netstation.len() + netstation_kinds(netstation@.len()).len()
                            <= planned_kinds(layout@).len(),
                        units_match(
                            builder.households@,
                            units_before_netstation + netstation@.take(h as int),
                        ),
                        units_are_valid(units_before_netstation + netstation@.take(h as int)),
                    decreases netstation.len() - h,
                {
                    let ghost before_household = builder;
                    let ghost units_so_far = units_before_netstation + netstation@.take(h as int);
                    let unit = netstation[h].clone();
                    if !check_profile(&unit.day_profile, unit.has_generation) {
                        proof {
                            assert(!netstation@[h as int].wf());
                            lemma_unit_is_planned(layout@, a as int, n as int, h as int);
                        }
                        return Err(unit_error());
                    }
                    match builder.add_household(netstation_index, unit) {
                        Ok(_) => {},
                        Err(error) => {
                            proof {
                                assert(kinds_of(before_household.agents@).len() == MAX_NODES);
                            }
                            return Err(error);
                        },
                    }
                    proof {
                        builder.lemma_added_keeps_fresh(
                            &before_household,
                            AgentKind::Household,
                            netstation_index,
                            grid_param,
                        );
                        assert forall|i: int| 0 <= i < before_household.agents@.len() implies
                            builder.agents@[i] == before_household.agents@[i] by {
                            assert(builder.agents@.drop_last()[i] == builder.agents@[i]);
                        }
                        let grown = kinds_before_netstation + netstation_kinds((h + 1) as nat);
                        let known = kinds_before_netstation + netstation_kinds(h as nat);
                        assert(known.len() == kinds_before_netstation.len() + 1 + h);
                        assert(grown.len() == kinds_before_netstation.len() + 2 + h);
                        assert(kinds_of(before_household.agents@).len()
                            == before_household.agents@.len());
                        assert forall|i: int| 0 <= i < builder.agents@.len() implies kinds_of(
                            builder.agents@,
                        )[i] == grown[i] by {
                            let front = kinds_before_netstation.len() as int;
                            if i < before_household.agents@.len() {
                                assert(kinds_of(before_household.agents@)[i] == known[i]);
                                if i >= front {
                                    assert(known[i] == netstation_kinds(h as nat)[i - front]);
                                    assert(grown[i] == netstation_kinds((h + 1) as nat)[i - front]);
                                }
                            } else {
                                assert(grown[i] == netstation_kinds((h + 1) as nat)[i - front]);
                                assert(builder.agents@[i] == builder.agents@.last());
                            }
                        }
                        assert(kinds_of(builder.agents@) =~= kinds_before_netstation
                            + netstation_kinds((h + 1) as nat));
                        let units_next = units_before_netstation + netstation@.take(h + 1);
                        assert(units_next =~= units_so_far.push(netstation@[h as int]));
                        assert forall|p: int| 0 <= p < builder.households@.len() implies same_unit(
                            (#[trigger] builder.households@[p]).power_generation,
                            units_next[p],
                        ) by {
                            if p < before_household.households@.len() {
                                assert(builder.households@.drop_last()[p]
                                    == builder.households@[p]);
                                assert(same_unit(
                                    before_household.households@[p].power_generation,
                                    units_so_far[p],
                                ));
                            }
                        }
                        assert forall|p: int| 0 <= p < units_next.len() implies (
                        #[trigger] units_next[p]).wf() by {
                            if p < units_so_far.len() {
                                assert(units_so_far[p].wf());
                            }
                        }
                    }
                    h = h + 1;
                }
                proof {
                    assert(netstation@.take(netstation@.len() as int) =~= netstation@);
                    assert(kinds_before_netstation + netstation_kinds(netstation@.len())
                        =~= kinds_before_area + seq![AgentKind::Area] + netstations_kinds(
                        area@.take(n + 1),
                    ));
                    assert(units_before_netstation + netstation@ =~= units_before_area
                        + area_units(area@.take(n + 1)));
                }
                n = n + 1;
            }
            proof {
                assert(area@.take(area@.len() as int) =~= area@);
                assert(kinds_before_area + seq![AgentKind::Area] + netstations_kinds(area@)
                    =~= planned_kinds(layout@.take(a + 1)));
            }
            a = a + 1;
        }
        proof {
            assert(layout@.take(layout@.len() as int) =~= layout@);
        }
        Ok(builder)
    }
}

/// The signed indices as unsigned ones.
fn to_indices(children: Vec<BaseInt>) -> (indices: Vec<BaseUint>)
    requires
        forall|i: int| 0 <= i < children@.len() ==> 0 <= #[trigger] children@[i],
    ensures
        indices@ == as_nodes(children@),
{
    let mut indices: Vec<BaseUint> = Vec::new();
    let mut i: usize = 0;
    while i < children.len()
        invariant
            i <= children.len(),
            forall|k: int| 0 <= k < children@.len() ==> 0 <= #[trigger] children@[k],
            indices@.len() == i,
            forall|k: int| 0 <= k < i ==> #[trigger] indices@[k] == children@[k] as BaseUint,
        decreases children.len() - i,
    {
        indices.push(children[i] as BaseUint);
        i = i + 1;
    }
    proof {
        assert(indices@ =~= as_nodes(children@));
    }
    indices
}

impl Model {
    /// The reserve that a model starts with: the energy storage of the grid as
    /// room in both directions, none of it in use, and the largest generation
    /// per tick as the rate of change.
    pub open spec fn planned_reserve(grid_param: Grid) -> ReservePower {
        ReservePower {
            lower_limit: Watt((-grid_param.energy_storage.0) as i64),
            upper_limit: grid_param.energy_storage,
            current_usage: Watt(0),
            watt_per_step: grid_param.max_gen_inc_tick,
        }
    }

    /// Whether the model is as it is built for the given layout.
    ///
    /// The agents were created in the order of the layout and got their
    /// indices in that order. The graph has a node for every agent and, for
    /// every agent but the root, an edge that enters it from the agent of the
    /// kind above that was created last before it. The table lists every agent
    /// at the place that is the number of agents of its kind created before it,
    /// and every agent is found in the table at its index.
    /// Every agent is as it was created and has as children exactly the targets
    /// of the edges that leave its node, in ascending order. The households have the units of the
    /// layout, and the reserve is the planned one.
    pub open spec fn is_built_from(&self, layout: Seq<AreaPlan>) -> bool {
        &&& kinds_of(self.agents@) == planned_kinds(layout)
        &&& units_match(self.households@, planned_units(layout))
        &&& self.graph.nodes().len() == self.agents@.len()
        &&& self.graph.edges().len() == self.agents@.len() - 1
        &&& forall|i: int| 0 <= i < self.agents@.len() ==> #[trigger] self.graph.nodes()[i] == i
        &&& forall|k: int|
            0 <= k < self.graph.edges().len() ==> (#[trigger] self.graph.edges()[k]).1 == k + 1
                && hangs_under(self.agents@, self.graph.edges()[k].0 as int, k + 1)
        &&& forall|p: int, q: int|
            0 <= p < q < self.areas@.len() ==> (#[trigger] self.areas@[p]).index < (
            #[trigger] self.areas@[q]).index
        &&& forall|p: int, q: int|
            0 <= p < q < self.netstations@.len() ==> (#[trigger] self.netstations@[p]).index < (
            #[trigger] self.netstations@[q]).index
        &&& forall|p: int, q: int|
            0 <= p < q < self.households@.len() ==> (#[trigger] self.households@[p]).index < (
            #[trigger] self.households@[q]).index
        &&& forall|i: int|
            0 <= i < self.agents@.len() ==> (#[trigger] self.agents@[i]).position == count_kind(
                self.agents@,
                i,
                self.agents@[i].kind,
            )
        &&& self.areas@.len() == count_kind(
            self.agents@,
            self.agents@.len() as int,
            AgentKind::Area,
        )
        &&& self.netstations@.len() == count_kind(
            self.agents@,
            self.agents@.len() as int,
            AgentKind::Netstation,
        )
        &&& self.households@.len() == count_kind(
            self.agents@,
            self.agents@.len() as int,
            AgentKind::Household,
        )
        &&& forall|p: int|
            0 <= p < self.areas@.len() ==> (#[trigger] self.areas@[p]).index < self.agents@.len()
                && self.agents@[self.areas@[p].index as int] == (AgentRef {
                kind: AgentKind::Area,
                position: p as usize,
            })
        &&& forall|p: int|
            0 <= p < self.netstations@.len() ==> (#[trigger] self.netstations@[p]).index
                < self.agents@.len() && self.agents@[self.netstations@[p].index as int] == (
            AgentRef { kind: AgentKind::Netstation, position: p as usize })
        &&& forall|p: int|
            0 <= p < self.households@.len() ==> (#[trigger] self.households@[p]).index
                < self.agents@.len() && self.agents@[self.households@[p].index as int] == (
            AgentRef { kind: AgentKind::Household, position: p as usize })
        &&& self.root.is_created(0, &self.param.grid, self.graph.children_of(0))
        &&& forall|p: int|
            0 <= p < self.areas@.len() ==> (#[trigger] self.areas@[p]).is_created(
                self.areas@[p].index,
                self.graph.children_of(self.areas@[p].index),
            )
        &&& forall|p: int|
            0 <= p < self.netstations@.len() ==> (#[trigger] self.netstations@[p]).is_created(
                self.netstations@[p].index,
                &self.param.grid,
                self.graph.children_of(self.netstations@[p].index),
            )
        &&& forall|p: int|
            0 <= p < self.households@.len() ==> (#[trigger] self.households@[p]).is_created(
                self.households@[p].index,
                self.households@[p].power_generation,
                Seq::empty(),
            )
        &&& self.reserve_power == Self::planned_reserve(self.param.grid)
    }

    /// Creating the graph and agents and adding agents to the graph. Graph is
    /// a tree: root, areas, netstations, households. After that every agent is
    /// given its children, which are read from the edges of the graph.
    ///
    /// This succeeds exactly if the graph can hold all agents, every unit of the
    /// layout has a valid profile, and neither the energy storage nor the
    /// largest generation per tick of the grid is negative. A negative storage
    /// or rate is told first, by a parameter error about the grid. Otherwise a
    /// graph error tells of too many agents and a parameter error about the
    /// power generation of a unit without a valid profile.
    pub fn new(model_param: ModelParameters, layout: &GridPlan) -> (model: Result<Self, ModelError>)
        ensures
            model is Ok <==> {
                &&& planned_kinds(layout@).len() <= MAX_NODES
                &&& units_are_valid(planned_units(layout@))
                &&& model_param.grid.energy_storage.0 >= 0
                &&& model_param.grid.max_gen_inc_tick.0 >= 0
            },
            model is Ok ==> {
                &&& model->Ok_0.wf()
                &&& model->Ok_0.param == model_param
                &&& model->Ok_0.is_built_from(layout@)
            },
            model is Err ==> match model->Err_0 {
                ModelError::GraphError(_) => planned_kinds(layout@).len() > MAX_NODES,
                ModelError::ParamError { .. } => if model_param.grid.energy_storage.0 < 0
                    || model_param.grid.max_gen_inc_tick.0 < 0 {
                    model->Err_0.is_param_error(reserve_error_text(), "grid"@)
                } else {
                    !units_are_valid(planned_units(layout@)) && model->Err_0.is_param_error(
                        unit_error_text(),
                        "power generation"@,
                    )
                },
                _ => false,
            },
            model_param.grid.energy_storage.0 < 0 || model_param.grid.max_gen_inc_tick.0 < 0
                ==> model is Err && model->Err_0.is_param_error(reserve_error_text(), "grid"@),
    {
        if model_param.grid.energy_storage.0 < 0 || model_param.grid.max_gen_inc_tick.0 < 0 {
            return Err(reserve_error());
        }
        let builder = match Self::generate_graph_and_agents(&model_param.grid, layout) {
            Ok(builder) => builder,
            Err(error) => {
                return Err(error);
            },
        };
        let ghost built = builder;
        let TreeBuilder { graph, agents, mut root, mut areas, mut netstations, mut households } =
            builder;
        let mut i: usize = 0;
        while i < agents.len()
            invariant
                i <= agents.len(),
                built.inv(),
                built.is_fresh(&model_param.grid),
                graph == built.graph,
                agents == built.agents,
                root == (Root { children: root.children, ..built.root }),
                root.children@ == if 0 < i {
                    built.graph.children_of(0)
                } else {
                    Seq::empty()
                },
                areas@.len() == built.areas@.len(),
                forall|p: int|
                    0 <= p < areas@.len() ==> #[trigger] areas@[p] == (Area {
                        children: areas@[p].children,
                        ..built.areas@[p]
                    }) && areas@[p].children@ == if areas@[p].index < i {
                        built.graph.children_of(areas@[p].index)
                    } else {
                        Seq::empty()
                    },
                netstations@.len() == built.netstations@.len(),
                forall|p: int|
                    0 <= p < netstations@.len() ==> #[trigger] netstations@[p] == (Netstation {
                        children: netstations@[p].children,
                        ..built.netstations@[p]
                    }) && netstations@[p].children@ == if netstations@[p].index < i {
                        built.graph.children_of(netstations@[p].index)
                    } else {
                        Seq::empty()
                    },
                households@.len() == built.households@.len(),
                forall|p: int|
                    0 <= p < households@.len() ==> #[trigger] households@[p] == (Household {
                        children: households@[p].children,
                        ..built.households@[p]
                    }) && households@[p].children@ == if households@[p].index < i {
                        built.graph.children_of(households@[p].index)
                    } else {
                        Seq::empty()
                    },
            decreases agents.len() - i,
        {
            let node: BaseInt = i as BaseInt;
            let children = match graph.get_children(&node) {
                Ok(found) => to_indices(found),
                Err(error) => {
                    return Err(error);
                },
            };
            proof {
                lemma_targets_ascend(built.graph.edges(), i as BaseUint, MAX_NODES as int);
                lemma_ascending_is_unique(children@, built.graph.children_of(i as BaseUint));
                assert(built.entry_is_valid(i as int));
            }
            let place = agents[i];
            match place.kind {
                AgentKind::Root => {
                    root.children = children;
                },
                AgentKind::Area => {
                    areas[place.position].children = children;
                },
                AgentKind::Netstation => {
                    netstations[place.position].children = children;
                },
                AgentKind::Household => {
                    households[place.position].children = children;
                },
                AgentKind::Connection => {},
            }
            i = i + 1;
        }
        let reserve_power = ReservePower {
            lower_limit: Watt(-model_param.grid.energy_storage.0),
            upper_limit: model_param.grid.energy_storage,
            current_usage: Watt(0),
            watt_per_step: model_param.grid.max_gen_inc_tick,
        };
        let model = Self {
            param: model_param,
            graph,
            agents,
            reserve_power,
            root,
            areas,
            netstations,
            households,
        };
        proof {
            model.lemma_populated_is_built(&built, layout@);
        }
        Ok(model)
    }

    /// A model whose agents are those of a finished builder, each with the
    /// targets of the edges that leave its node as children, is well-formed and
    /// built from the layout that the builder followed.
    pub proof fn lemma_populated_is_built(&self, built: &TreeBuilder, layout: Seq<AreaPlan>)
        requires
            built.inv(),
            built.is_fresh(&self.param.grid),
            kinds_of(built.agents@) == planned_kinds(layout),
            units_match(built.households@, planned_units(layout)),
            self.graph == built.graph,
            self.agents == built.agents,
            self.param.grid.energy_storage.0 >= 0,
            self.param.grid.max_gen_inc_tick.0 >= 0,
            self.reserve_power == Self::planned_reserve(self.param.grid),
            self.root == (Root { children: self.root.children, ..built.root }),
            self.root.children@ == built.graph.children_of(0),
            self.areas@.len() == built.areas@.len(),
            forall|p: int|
                0 <= p < self.areas@.len() ==> #[trigger] self.areas@[p] == (Area {
                    children: self.areas@[p].children,
                    ..built.areas@[p]
                }) && self.areas@[p].children@ == built.graph.children_of(self.areas@[p].index),
            self.netstations@.len() == built.netstations@.len(),
            forall|p: int|
                0 <= p < self.netstations@.len() ==> #[trigger] self.netstations@[p] == (
                Netstation { children: self.netstations@[p].children, ..built.netstations@[p] })
                    && self.netstations@[p].children@ == built.graph.children_of(
                    self.netstations@[p].index,
                ),
            self.households@.len() == built.households@.len(),
            forall|p: int|
                0 <= p < self.households@.len() ==> #[trigger] self.households@[p] == (Household {
                    children: self.households@[p].children,
                    ..built.households@[p]
                }) && self.households@[p].children@ == built.graph.children_of(
                    self.households@[p].index,
                ),
        ensures
            self.wf(),
            self.is_built_from(layout),
    {
        let edges = self.graph.edges();
        assert forall|i: int| 0 <= i < self.agents@.len() implies self.entry_is_valid(i) by {
            assert(built.entry_is_valid(i));
        }
        assert forall|node: BaseUint, kind: AgentKind|
            node < self.agents@.len() && self.agents@[node as int].kind == kind_above(
                kind,
            ) implies #[trigger] children_of_kind(
            self.agents@,
            self.graph.children_of(node),
            kind,
        ) by {
            lemma_targets_are_edge_targets(edges, node);
            let children = self.graph.children_of(node);
            assert forall|j: int| 0 <= j < children.len() implies {
                &&& (#[trigger] children[j]) < self.agents@.len()
                &&& self.agents@[children[j] as int].kind == kind
            } by {
                assert(has_edge(edges, node, children[j]));
                let k = choose|k: int| 0 <= k < edges.len() && #[trigger] edges[k] == (
                    node,
                    children[j],
                );
                assert(hangs_under(self.agents@, edges[k].0 as int, k + 1));
                assert(self.agents@[k + 1].kind != AgentKind::Root);
                assert(self.entry_is_valid(k + 1));
            }
        }
        assert(children_of_kind(self.agents@, self.root.children@, AgentKind::Area));
        assert forall|p: int| 0 <= p < self.areas@.len() implies children_of_kind(
            self.agents@,
            (#[trigger] self.areas@[p]).children@,
            AgentKind::Netstation,
        ) by {
            let index = built.areas@[p].index;
            assert(self.areas@[p].index == index);
            assert(built.entry_is_valid(index as int));
            assert(self.agents@[index as int].kind == AgentKind::Area) by {
                self.lemma_kind_of_listed(built, AgentKind::Area, p);
            }
            assert(children_of_kind(
                self.agents@,
                self.graph.children_of(index),
                AgentKind::Netstation,
            ));
        }
        assert forall|p: int| 0 <= p < self.netstations@.len() implies {
            &&& children_of_kind(
                self.agents@,
                (#[trigger] self.netstations@[p]).children@,
                AgentKind::Household,
            )
            &&& self.netstations@[p].children@.len() <= MAX_NODES
        } by {
            let index = built.netstations@[p].index;
            assert(self.netstations@[p].index == index);
            assert(self.agents@[index as int].kind == AgentKind::Netstation) by {
                self.lemma_kind_of_listed(built, AgentKind::Netstation, p);
            }
            assert(children_of_kind(
                self.agents@,
                self.graph.children_of(index),
                AgentKind::Household,
            ));
            lemma_targets_ascend(edges, index, MAX_NODES as int);
        }
        assert forall|p: int| 0 <= p < self.households@.len() implies (
        #[trigger] self.households@[p]).children@.len() == 0 by {
            let index = built.households@[p].index;
            assert(self.households@[p].index == index);
            assert(self.agents@[index as int].kind == AgentKind::Household) by {
                self.lemma_kind_of_listed(built, AgentKind::Household, p);
            }
            lemma_targets_are_edge_targets(edges, index);
            let children = self.graph.children_of(index);
            if children.len() > 0 {
                assert(has_edge(edges, index, children[0]));
                let k = choose|k: int| 0 <= k < edges.len() && #[trigger] edges[k] == (
                    index,
                    children[0],
                );
                assert(hangs_under(self.agents@, edges[k].0 as int, k + 1));
            }
        }
        assert forall|p: int| 0 <= p < self.households@.len() implies {
            &&& (#[trigger] self.households@[p]).power_generation.wf()
            &&& self.households@[p].powerstate.wf()
            &&& same_unit(self.households@[p].power_generation, planned_units(layout)[p])
            &&& self.households@[p].is_created(
                self.households@[p].index,
                self.households@[p].power_generation,
                Seq::empty(),
            )
        } by {
            assert(built.households@[p].is_created(
                built.households@[p].index,
                built.households@[p].power_generation,
                Seq::empty(),
            ));
            assert(self.households@[p].children@.len() == 0);
            assert(self.households@[p].children@ =~= Seq::<BaseUint>::empty());
            assert(same_unit(built.households@[p].power_generation, planned_units(layout)[p]));
        }
        assert forall|p: int| 0 <= p < self.areas@.len() implies {
            &&& (#[trigger] self.areas@[p]).powerstate.wf()
            &&& self.areas@[p].is_created(
                self.areas@[p].index,
                self.graph.children_of(self.areas@[p].index),
            )
        } by {
            assert(built.areas@[p].is_created(built.areas@[p].index, Seq::empty()));
        }
        assert forall|p: int| 0 <= p < self.netstations@.len() implies {
            &&& (#[trigger] self.netstations@[p]).powerstate.wf()
            &&& self.netstations@[p].is_created(
                self.netstations@[p].index,
                &self.param.grid,
                self.graph.children_of(self.netstations@[p].index),
            )
        } by {
            assert(built.netstations@[p].is_created(
                built.netstations@[p].index,
                &self.param.grid,
                Seq::empty(),
            ));
        }
        assert forall|p: int, q: int| 0 <= p < q < self.areas@.len() implies (
        #[trigger] self.areas@[p]).index < (#[trigger] self.areas@[q]).index by {
            assert(built.areas@[p].index < built.areas@[q].index);
        }
        assert forall|p: int, q: int| 0 <= p < q < self.netstations@.len() implies (
        #[trigger] self.netstations@[p]).index < (#[trigger] self.netstations@[q]).index by {
            assert(built.netstations@[p].index < built.netstations@[q].index);
        }
        assert forall|p: int, q: int| 0 <= p < q < self.households@.len() implies (
        #[trigger] self.households@[p]).index < (#[trigger] self.households@[q]).index by {
            assert(built.households@[p].index < built.households@[q].index);
        }
    }

    /// The table lists the agent at place `p` of the list of the given kind
    /// with this kind.
    pub proof fn lemma_kind_of_listed(&self, built: &TreeBuilder, kind: AgentKind, p: int)
        requires
            built.inv(),
            self.agents == built.agents,
            kind == AgentKind::Area ==> 0 <= p < built.areas@.len(),
            kind == AgentKind::Netstation ==> 0 <= p < built.netstations@.len(),
            kind == AgentKind::Household ==> 0 <= p < built.households@.len(),
            kind == AgentKind::Area || kind == AgentKind::Netstation || kind
                == AgentKind::Household,
        ensures
            kind == AgentKind::Area ==> self.agents@[built.areas@[p].index as int].kind == kind,
            kind == AgentKind::Netstation ==> self.agents@[built.netstations@[p].index as int].kind
                == kind,
            kind == AgentKind::Household ==> self.agents@[built.households@[p].index as int].kind
                == kind,
    {
    }
}

/// The unit at the given place of the layout is among the planned units.
pub proof fn lemma_unit_is_planned(layout: Seq<AreaPlan>, a: int, n: int, h: int)
    requires
        0 <= a < layout.len(),
        0 <= n < layout[a]@.len(),
        0 <= h < layout[a]@[n]@.len(),
    ensures
        planned_units(layout).contains(layout[a]@[n]@[h]),
{
    lemma_area_unit_is_planned(layout[a]@, n, h);
    let unit = layout[a]@[n]@[h];
    let j = choose|j: int| 0 <= j < area_units(layout[a]@).len() && area_units(layout[a]@)[j] == unit;
    lemma_units_of_area_are_planned(layout, a, j);
}

/// The unit at the given place of the area is among the units of the area.
pub proof fn lemma_area_unit_is_planned(area: Seq<NetstationPlan>, n: int, h: int)
    requires
        0 <= n < area.len(),
        0 <= h < area[n]@.len(),
    ensures
        area_units(area).contains(area[n]@[h]),
    decreases area.len(),
{
    if n == area.len() - 1 {
        let at = area_units(area.drop_last()).len() + h;
        assert(area_units(area)[at] == area[n]@[h]);
    } else {
        lemma_area_unit_is_planned(area.drop_last(), n, h);
        let j = choose|j: int|
            0 <= j < area_units(area.drop_last()).len() && area_units(area.drop_last())[j]
                == area.drop_last()[n]@[h];
        assert(area_units(area)[j] == area[n]@[h]);
    }
}

/// Every unit of an area of the layout is among the planned units.
pub proof fn lemma_units_of_area_are_planned(layout: Seq<AreaPlan>, a: int, j: int)
    requires
        0 <= a < layout.len(),
        0 <= j < area_units(layout[a]@).len(),
    ensures
        planned_units(layout).contains(area_units(layout[a]@)[j]),
    decreases layout.len(),
{
    if a == layout.len() - 1 {
        let at = planned_units(layout.drop_last()).len() + j;
        assert(planned_units(layout)[at] == area_units(layout[a]@)[j]);
    } else {
        lemma_units_of_area_are_planned(layout.drop_last(), a, j);
        let unit = area_units(layout[a]@)[j];
        let i = choose|i: int|
            0 <= i < planned_units(layout.drop_last()).len() && planned_units(
                layout.drop_last(),
            )[i] == unit;
        assert(planned_units(layout)[i] == unit);
    }
}

} // verus!
