//! Building the tree of agents and the graph that records it, one agent at a
//! time.
use crate::agent::{AgentKind, AgentList, AgentRef, Area, Household, Netstation, Root};
use crate::grid::{Grid, PowerGeneration};
use crate::model::mygraph::{
    node_mismatch_text, strictly_ascending, targets_from, MyGraph, MAX_NODES,
};
use crate::util::{BaseInt, BaseUint, ModelError};
use vstd::prelude::*;

verus! {

/// The agents and the graph of a model while they are being created.
pub struct TreeBuilder {
    /// The graph so far.
    pub graph: MyGraph,
    /// The table of the agents so far, in the order of their indices.
    pub agents: AgentList,
    /// The root agent.
    pub root: Root,
    /// The area agents so far.
    pub areas: Vec<Area>,
    /// The netstation agents so far.
    pub netstations: Vec<Netstation>,
    /// The household agents so far.
    pub households: Vec<Household>,
}

/// The kind of agent that an agent of the given kind stands under. The root
/// stands under nothing.
pub open spec fn kind_above(kind: AgentKind) -> AgentKind {
    match kind {
        AgentKind::Area => AgentKind::Root,
        AgentKind::Netstation => AgentKind::Area,
        AgentKind::Household => AgentKind::Netstation,
        _ => AgentKind::Connection,
    }
}

/// Whether the agent at `child` hangs under the agent at `parent` as the order
/// of creation asks for: the parent is the agent of the kind above that was
/// created last before the child.
pub open spec fn hangs_under(agents: Seq<AgentRef>, parent: int, child: int) -> bool {
    &&& 0 <= parent < child < agents.len()
    &&& agents[parent].kind == kind_above(agents[child].kind)
    &&& forall|i: int| parent < i < child ==> (#[trigger] agents[i]).kind != agents[parent].kind
}

/// The number of agents of the given kind among the first `n` of the table.
#[verifier::opaque]
pub open spec fn count_kind(agents: Seq<AgentRef>, n: int, kind: AgentKind) -> int
    decreases n,
{
    if n <= 0 {
        0
    } else {
        count_kind(agents, n - 1, kind) + if agents[n - 1].kind == kind {
            1int
        } else {
            0int
        }
    }
}

/// The number of agents of a kind among the first `n` of a table depends on
/// these `n` entries only.
pub proof fn lemma_count_kind_of_prefix(
    agents: Seq<AgentRef>,
    others: Seq<AgentRef>,
    n: int,
    kind: AgentKind,
)
    requires
        0 <= n <= agents.len(),
        n <= others.len(),
        forall|j: int| 0 <= j < n ==> (#[trigger] agents[j]).kind == others[j].kind,
    ensures
        count_kind(agents, n, kind) == count_kind(others, n, kind),
    decreases n,
{
    reveal_with_fuel(count_kind, 2);
    if n > 0 {
        lemma_count_kind_of_prefix(agents, others, n - 1, kind);
    }
}

/// The number of agents of a kind among the first `n + 1` of a table is the
/// number among the first `n`, and one more if the agent at `n` is of the
/// kind. Among none there is none.
pub proof fn lemma_count_kind_step(agents: Seq<AgentRef>, n: int, kind: AgentKind)
    requires
        0 <= n,
    ensures
        count_kind(agents, 0, kind) == 0,
        count_kind(agents, n + 1, kind) == count_kind(agents, n, kind) + if agents[n].kind == kind {
            1int
        } else {
            0int
        },
{
    reveal_with_fuel(count_kind, 2);
}

/// Whether the first list holds the same entries as the second, and one more
/// at its end.
pub open spec fn extends<T>(longer: Seq<T>, shorter: Seq<T>) -> bool {
    longer.len() == shorter.len() + 1 && longer.drop_last() == shorter
}

/// The targets of the edges that leave a node are below `bound` and strictly
/// ascending if every edge enters a node below `bound` and a later edge enters
/// a node with a higher index than an earlier one.
pub proof fn lemma_targets_ascend(edges: Seq<(BaseUint, BaseUint)>, node: BaseUint, bound: int)
    requires
        forall|k: int| 0 <= k < edges.len() ==> (#[trigger] edges[k]).1 == k + 1,
        edges.len() < bound,
    ensures
        strictly_ascending(targets_from(edges, node)),
        targets_from(edges, node).len() <= edges.len(),
        forall|j: int|
            0 <= j < targets_from(edges, node).len() ==> 0 < (#[trigger] targets_from(
                edges,
                node,
            )[j]) <= edges.len(),
    decreases edges.len(),
{
    if edges.len() > 0 {
        let shorter = edges.drop_last();
        assert forall|k: int| 0 <= k < shorter.len() implies (#[trigger] shorter[k]).1 == k + 1 by {
            assert(shorter[k] == edges[k]);
        }
        lemma_targets_ascend(shorter, node, bound);
    }
}

impl TreeBuilder {
    /// Whether the entry of the table for the given index points to an agent
    /// that has this index.
    pub open spec fn entry_is_valid(&self, index: int) -> bool {
        let entry = self.agents@[index];
        match entry.kind {
            AgentKind::Root => index == 0 && entry.position == 0,
            AgentKind::Connection => false,
            AgentKind::Area => entry.position < self.areas@.len()
                && self.areas@[entry.position as int].index == index,
            AgentKind::Netstation => entry.position < self.netstations@.len()
                && self.netstations@[entry.position as int].index == index,
            AgentKind::Household => entry.position < self.households@.len()
                && self.households@[entry.position as int].index == index,
        }
    }

    /// What holds of the tree while it is built.
    ///
    /// The graph has one node for every agent in the table, weighted with its
    /// index. Every agent but the root is entered by one edge, which was added
    /// right after the agent: the edge at place `k` enters the node `k + 1`,
    /// and leaves the agent of the kind above that was created last before it.
    /// Every entry of the table points to the agent with its index, every agent
    /// is listed in the table at its index, and every list of agents is in the
    /// order of the indices: the place of an agent in its list is the number of
    /// agents of its kind that were created before it.
    pub open spec fn inv(&self) -> bool {
        &&& self.graph.wf()
        &&& self.graph.nodes().len() == self.agents@.len()
        &&& self.agents@.len() >= 1
        &&& self.agents@.len() == 1 + self.areas@.len() + self.netstations@.len()
            + self.households@.len()
        &&& self.graph.edges().len() == self.agents@.len() - 1
        &&& forall|i: int| 0 <= i < self.agents@.len() ==> #[trigger] self.graph.nodes()[i] == i
        &&& forall|k: int|
            0 <= k < self.graph.edges().len() ==> (#[trigger] self.graph.edges()[k]).1 == k + 1
                && hangs_under(self.agents@, self.graph.edges()[k].0 as int, k + 1)
        &&& self.root.index == 0
        &&& self.agents@[0].kind == AgentKind::Root
        &&& forall|i: int| 0 <= i < self.agents@.len() ==> self.entry_is_valid(i)
        &&& forall|i: int| 0 < i < self.agents@.len() ==> (#[trigger] self.agents@[i]).kind
            != AgentKind::Root
        &&& forall|p: int, q: int|
            0 <= p < q < self.areas@.len() ==> (#[trigger] self.areas@[p]).index < (
            #[trigger] self.areas@[q]).index
        &&& forall|p: int, q: int|
            0 <= p < q < self.netstations@.len() ==> (#[trigger] self.netstations@[p]).index < (
            #[trigger] self.netstations@[q]).index
        &&& forall|p: int, q: int|
            0 <= p < q < self.households@.len() ==> (#[trigger] self.households@[p]).index < (
            #[trigger] self.households@[q]).index
        &&& forall|p: int|
            0 <= p < self.areas@.len() ==> (#[trigger] self.areas@[p]).index < self.agents@.len()
                && self.agents@[self.areas@[p].index as int] == (AgentRef {
                kind: AgentKind::Area,
                position: p as usize,
            })
        &&& forall|p: int|
            0 <= p < self.netstations@.len() ==> (#[trigger] self.netstations@[p]).index
                < self.agents@.len() && self.agents@[self.netstations@[p].index as int] == (
            AgentRef { kind: AgentKind::Netstation, position: p as usize })
        &&& forall|p: int|
            0 <= p < self.households@.len() ==> (#[trigger] self.households@[p]).index
                < self.agents@.len() && self.agents@[self.households@[p].index as int] == (
            AgentRef { kind: AgentKind::Household, position: p as usize })
        &&& self.places_are_counts()
    }

    /// Whether the table lists every agent at the place that is the number of
    /// agents of its kind that were created before it, and every list is as
    /// long as there are agents of its kind in the table.
    pub open spec fn places_are_counts(&self) -> bool {
        &&& forall|i: int|
            0 <= i < self.agents@.len() ==> (#[trigger] self.agents@[i]).position == count_kind(
                self.agents@,
                i,
                self.agents@[i].kind,
            )
        &&& self.areas@.len() == count_kind(
            self.agents@,
            self.agents@.len() as int,
            AgentKind::Area,
        )
        &&& self.netstations@.len() == count_kind(
            self.agents@,
            self.agents@.len() as int,
            AgentKind::Netstation,
        )
        &&& self.households@.len() == count_kind(
            self.agents@,
            self.agents@.len() as int,
            AgentKind::Household,
        )
    }

    /// Adding an agent at the end of the table and of the list of its kind
    /// keeps the places in the table the counts of the agents before.
    pub proof fn lemma_added_keeps_counts(&self, before: &TreeBuilder, kind: AgentKind, parent: BaseUint)
        requires
            before.places_are_counts(),
            self.has_added(before, kind, parent),
            kind == AgentKind::Area || kind == AgentKind::Netstation || kind
                == AgentKind::Household,
        ensures
            self.places_are_counts(),
    {
        let n = before.agents@.len() as int;
        assert forall|i: int| 0 <= i < n implies self.agents@[i] == before.agents@[i] by {
            assert(self.agents@.drop_last()[i] == self.agents@[i]);
        }
        lemma_count_kind_of_prefix(self.agents@, before.agents@, n, AgentKind::Area);
        lemma_count_kind_of_prefix(self.agents@, before.agents@, n, AgentKind::Netstation);
        lemma_count_kind_of_prefix(self.agents@, before.agents@, n, AgentKind::Household);
        lemma_count_kind_step(self.agents@, n, AgentKind::Area);
        lemma_count_kind_step(self.agents@, n, AgentKind::Netstation);
        lemma_count_kind_step(self.agents@, n, AgentKind::Household);
        assert forall|i: int| 0 <= i < self.agents@.len() implies (
        #[trigger] self.agents@[i]).position == count_kind(
            self.agents@,
            i,
            self.agents@[i].kind,
        ) by {
            if i < n {
                lemma_count_kind_of_prefix(self.agents@, before.agents@, i, before.agents@[i].kind);
                assert(before.agents@[i].position == count_kind(
                    before.agents@,
                    i,
                    before.agents@[i].kind,
                ));
            } else {
                assert(self.agents@[i] == self.agents@.last());
            }
        }
    }

    /// Whether this builder is `other` with one more agent of the given kind,
    /// which stands at the end of the table and of the list of its kind, and is
    /// entered by an edge from `parent`.
    pub open spec fn has_added(&self, other: &TreeBuilder, kind: AgentKind, parent: BaseUint) -> bool {
        &&& self.root == other.root
        &&& extends(self.agents@, other.agents@)
        &&& self.agents@.last().kind == kind
        &&& self.graph.nodes() == other.graph.nodes().push(other.agents@.len() as BaseInt)
        &&& self.graph.edges() == other.graph.edges().push(
            (parent, other.agents@.len() as BaseUint),
        )
        &&& if kind == AgentKind::Area {
            extends(self.areas@, other.areas@) && self.agents@.last().position
                == other.areas@.len() && self.areas@.last().index == other.agents@.len()
        } else {
            self.areas == other.areas
        }
        &&& if kind == AgentKind::Netstation {
            extends(self.netstations@, other.netstations@) && self.agents@.last().position
                == other.netstations@.len() && self.netstations@.last().index
                == other.agents@.len()
        } else {
            self.netstations == other.netstations
        }
        &&& if kind == AgentKind::Household {
            extends(self.households@, other.households@) && self.agents@.last().position
                == other.households@.len() && self.households@.last().index
                == other.agents@.len()
        } else {
            self.households == other.households
        }
    }

    /// Whether this builder holds what `other` holds: the same table, the same
    /// root and lists of agents, and a graph with the same nodes and edges.
    pub open spec fn holds_what(&self, other: &TreeBuilder) -> bool {
        &&& self.root == other.root
        &&& self.agents == other.agents
        &&& self.areas == other.areas
        &&& self.netstations == other.netstations
        &&& self.households == other.households
        &&& self.graph.nodes() == other.graph.nodes()
        &&& self.graph.edges() == other.graph.edges()
    }

    /// A builder that holds what a valid builder holds is valid.
    pub proof fn lemma_holds_what_keeps_inv(&self, other: &TreeBuilder)
        requires
            other.inv(),
            self.holds_what(other),
        ensures
            self.inv(),
    {
        assert forall|i: int| 0 <= i < self.agents@.len() implies self.entry_is_valid(i) by {
            assert(other.entry_is_valid(i));
        }
    }

    /// Whether the builder has refused one more agent of the given kind: it
    /// holds what `other` holds, and the error tells the kind and the index
    /// that the agent would have had.
    pub open spec fn has_refused(&self, other: &TreeBuilder, kind: AgentKind, error: ModelError) -> bool {
        &&& self.inv()
        &&& self.holds_what(other)
        &&& error is GraphError
        &&& error->GraphError_0@ == node_mismatch_text(kind, other.agents@.len() as BaseUint)
    }

    /// Whether no agent of the kind of the agent at `parent` was created after
    /// it.
    pub open spec fn is_last_of_kind(&self, parent: int) -> bool {
        forall|i: int|
            parent < i < self.agents@.len() ==> (#[trigger] self.agents@[i]).kind
                != self.agents@[parent].kind
    }

    /// Starts a tree with its root, which gets the index 0.
    pub fn new(grid_param: &Grid) -> (built: Result<TreeBuilder, ModelError>)
        ensures
            built is Ok,
            built->Ok_0.inv(),
            built->Ok_0.agents@.len() == 1,
            built->Ok_0.root.is_created(0, grid_param, Seq::empty()),
    {
        let mut agents: AgentList = Vec::new();
        let mut graph = MyGraph::new();
        let root_index: BaseUint = 0;
        let root = Root::new(root_index, grid_param);
        match graph.add_node(AgentKind::Root, root_index) {
            Ok(()) => {},
            Err(error) => {
                return Err(error);
            },
        }
        agents.push(AgentRef { kind: AgentKind::Root, position: 0 });
        proof {
            lemma_count_kind_step(agents@, 0, AgentKind::Root);
            lemma_count_kind_step(agents@, 0, AgentKind::Area);
            lemma_count_kind_step(agents@, 0, AgentKind::Netstation);
            lemma_count_kind_step(agents@, 0, AgentKind::Household);
        }
        Ok(
            TreeBuilder {
                graph,
                agents,
                root,
                areas: Vec::new(),
                netstations: Vec::new(),
                households: Vec::new(),
            },
        )
    }

    /// Whether the tree can take one more agent under `parent`.
    pub open spec fn has_room(&self) -> bool {
        self.agents@.len() < MAX_NODES
    }

    /// Adds an area under the root. The area gets the next free index.
    pub fn add_area(&mut self) -> (added: Result<BaseUint, ModelError>)
        requires
            old(self).inv(),
        ensures
            added is Ok <==> old(self).has_room(),
            added is Ok ==> {
                &&& final(self).inv()
                &&& added->Ok_0 == old(self).agents@.len()
                &&& final(self).has_added(old(self), AgentKind::Area, 0)
                &&& final(self).areas@.last().is_created(added->Ok_0, Seq::empty())
            },
            added is Err ==> final(self).has_refused(old(self), AgentKind::Area, added->Err_0),
    {
        let area_index: BaseUint = self.agents.len() as BaseUint;
        match self.graph.add_node(AgentKind::Area, area_index) {
            Ok(()) => {},
            Err(error) => {
                proof {
                    self.lemma_holds_what_keeps_inv(old(self));
                }
                return Err(error);
            },
        }
        match self.graph.add_edge(0, area_index) {
            Ok(()) => {},
            Err(error) => {
                proof {
                    self.lemma_holds_what_keeps_inv(old(self));
                }
                return Err(error);
            },
        }
        let area = Area::new(area_index);
        self.agents.push(AgentRef { kind: AgentKind::Area, position: self.areas.len() });
        self.areas.push(area);
        proof {
            assert(self.agents@.drop_last() =~= old(self).agents@);
            assert(self.areas@.drop_last() =~= old(self).areas@);
            self.lemma_added_keeps_inv(old(self), AgentKind::Area, 0);
        }
        Ok(area_index)
    }

    /// Adds a netstation under the area with the given index. The netstation
    /// gets the next free index.
    pub fn add_netstation(&mut self, area_index: BaseUint, grid_param: &Grid) -> (added: Result<
        BaseUint,
        ModelError,
    >)
        requires
            old(self).inv(),
            area_index < old(self).agents@.len(),
            old(self).agents@[area_index as int].kind == AgentKind::Area,
            old(self).is_last_of_kind(area_index as int),
        ensures
            added is Ok <==> old(self).has_room(),
            added is Ok ==> {
                &&& final(self).inv()
                &&& added->Ok_0 == old(self).agents@.len()
                &&& final(self).has_added(old(self), AgentKind::Netstation, area_index)
                &&& final(self).netstations@.last().is_created(
                    added->Ok_0,
                    grid_param,
                    Seq::empty(),
                )
            },
            added is Err ==> final(self).has_refused(old(self), AgentKind::Netstation, added->Err_0),
    {
        let netstation_index: BaseUint = self.agents.len() as BaseUint;
        match self.graph.add_node(AgentKind::Netstation, netstation_index) {
            Ok(()) => {},
            Err(error) => {
                proof {
                    self.lemma_holds_what_keeps_inv(old(self));
                }
                return Err(error);
            },
        }
        match self.graph.add_edge(area_index, netstation_index) {
            Ok(()) => {},
            Err(error) => {
                proof {
                    self.lemma_holds_what_keeps_inv(old(self));
                }
                return Err(error);
            },
        }
        let netstation = Netstation::new(netstation_index, grid_param);
        self.agents.push(
            AgentRef { kind: AgentKind::Netstation, position: self.netstations.len() },
        );
        self.netstations.push(netstation);
        proof {
            assert(self.agents@.drop_last() =~= old(self).agents@);
            assert(self.netstations@.drop_last() =~= old(self).netstations@);
            self.lemma_added_keeps_inv(old(self), AgentKind::Netstation, area_index);
        }
        Ok(netstation_index)
    }

    /// Adds a household with the given power generation unit under the
    /// netstation with the given index. The household gets the next free
    /// index.
    pub fn add_household(&mut self, netstation_index: BaseUint, power_generation: PowerGeneration) -> (added:
        Result<BaseUint, ModelError>)
        requires
            old(self).inv(),
            netstation_index < old(self).agents@.len(),
            old(self).agents@[netstation_index as int].kind == AgentKind::Netstation,
            old(self).is_last_of_kind(netstation_index as int),
        ensures
            added is Ok <==> old(self).has_room(),
            added is Ok ==> {
                &&& final(self).inv()
                &&& added->Ok_0 == old(self).agents@.len()
                &&& final(self).has_added(old(self), AgentKind::Household, netstation_index)
                &&& final(self).households@.last().is_created(
                    added->Ok_0,
                    power_generation,
                    Seq::empty(),
                )
            },
            added is Err ==> final(self).has_refused(old(self), AgentKind::Household, added->Err_0),
    {
        let household_index: BaseUint = self.agents.len() as BaseUint;
        match self.graph.add_node(AgentKind::Household, household_index) {
            Ok(()) => {},
            Err(error) => {
                proof {
                    self.lemma_holds_what_keeps_inv(old(self));
                }
                return Err(error);
            },
        }
        match self.graph.add_edge(netstation_index, household_index) {
            Ok(()) => {},
            Err(error) => {
                proof {
                    self.lemma_holds_what_keeps_inv(old(self));
                }
                return Err(error);
            },
        }
        let household = Household::new(household_index, power_generation);
        self.agents.push(
            AgentRef { kind: AgentKind::Household, position: self.households.len() },
        );
        self.households.push(household);
        proof {
            assert(self.agents@.drop_last() =~= old(self).agents@);
            assert(self.households@.drop_last() =~= old(self).households@);
            self.lemma_added_keeps_inv(old(self), AgentKind::Household, netstation_index);
        }
        Ok(household_index)
    }

    /// Whether every agent is as it was created, without children, and every
    /// household has a unit with a valid profile.
    pub open spec fn is_fresh(&self, grid_param: &Grid) -> bool {
        &&& self.root.is_created(0, grid_param, Seq::empty())
        &&& forall|p: int|
            0 <= p < self.areas@.len() ==> (#[trigger] self.areas@[p]).is_created(
                self.areas@[p].index,
                Seq::empty(),
            )
        &&& forall|p: int|
            0 <= p < self.netstations@.len() ==> (#[trigger] self.netstations@[p]).is_created(
                self.netstations@[p].index,
                grid_param,
                Seq::empty(),
            )
        &&& forall|p: int|
            0 <= p < self.households@.len() ==> (#[trigger] self.households@[p]).is_created(
                self.households@[p].index,
                self.households@[p].power_generation,
                Seq::empty(),
            ) && self.households@[p].power_generation.wf()
    }

    /// Adding an agent that is as it was created, and has a valid unit if it is
    /// a household, keeps every agent as it was created.
    pub proof fn lemma_added_keeps_fresh(
        &self,
        before: &TreeBuilder,
        kind: AgentKind,
        parent: BaseUint,
        grid_param: &Grid,
    )
        requires
            before.is_fresh(grid_param),
            self.has_added(before, kind, parent),
            kind == AgentKind::Area ==> self.areas@.last().is_created(
                self.areas@.last().index,
                Seq::empty(),
            ),
            kind == AgentKind::Netstation ==> self.netstations@.last().is_created(
                self.netstations@.last().index,
                grid_param,
                Seq::empty(),
            ),
            kind == AgentKind::Household ==> self.households@.last().is_created(
                self.households@.last().index,
                self.households@.last().power_generation,
                Seq::empty(),
            ) && self.households@.last().power_generation.wf(),
        ensures
            self.is_fresh(grid_param),
    {
        assert forall|p: int| 0 <= p < self.areas@.len() implies (
        #[trigger] self.areas@[p]).is_created(self.areas@[p].index, Seq::empty()) by {
            if p < before.areas@.len() {
                if kind == AgentKind::Area {
                    assert(self.areas@.drop_last()[p] == self.areas@[p]);
                }
                assert(before.areas@[p].is_created(before.areas@[p].index, Seq::empty()));
            }
        }
        assert forall|p: int| 0 <= p < self.netstations@.len() implies (
        #[trigger] self.netstations@[p]).is_created(
            self.netstations@[p].index,
            grid_param,
            Seq::empty(),
        ) by {
            if p < before.netstations@.len() {
                if kind == AgentKind::Netstation {
                    assert(self.netstations@.drop_last()[p] == self.netstations@[p]);
                }
                assert(before.netstations@[p].is_created(
                    before.netstations@[p].index,
                    grid_param,
                    Seq::empty(),
                ));
            }
        }
        assert forall|p: int| 0 <= p < self.households@.len() implies {
            &&& (#[trigger] self.households@[p]).is_created(
                self.households@[p].index,
                self.households@[p].power_generation,
                Seq::empty(),
            )
            &&& self.households@[p].power_generation.wf()
        } by {
            if p < before.households@.len() {
                if kind == AgentKind::Household {
                    assert(self.households@.drop_last()[p] == self.households@[p]);
                }
                assert(before.households@[p].is_created(
                    before.households@[p].index,
                    before.households@[p].power_generation,
                    Seq::empty(),
                ));
            }
        }
    }

    /// Adding an agent under the agent of the kind above that was created
    /// last keeps what holds of the tree.
    pub proof fn lemma_added_keeps_inv(&self, before: &TreeBuilder, kind: AgentKind, parent: BaseUint)
        requires
            before.inv(),
            before.has_room(),
            self.graph.wf(),
            self.has_added(before, kind, parent),
            parent < before.agents@.len(),
            before.agents@[parent as int].kind == kind_above(kind),
            before.is_last_of_kind(parent as int),
            kind == AgentKind::Area || kind == AgentKind::Netstation || kind
                == AgentKind::Household,
        ensures
            self.inv(),
    {
        let n = before.agents@.len() as int;
        assert forall|i: int| 0 <= i < self.agents@.len() implies #[trigger] self.graph.nodes()[i]
            == i by {
            if i < n {
                assert(before.graph.nodes()[i] == i);
            }
        }
        assert forall|i: int| 0 <= i < n implies self.agents@[i] == before.agents@[i] by {
            assert(self.agents@.drop_last()[i] == self.agents@[i]);
        }
        assert forall|k: int| 0 <= k < self.graph.edges().len() implies {
            &&& (#[trigger] self.graph.edges()[k]).1 == k + 1
            &&& hangs_under(self.agents@, self.graph.edges()[k].0 as int, k + 1)
        } by {
            if k < before.graph.edges().len() {
                assert(self.graph.edges()[k] == before.graph.edges()[k]);
                assert(hangs_under(before.agents@, before.graph.edges()[k].0 as int, k + 1));
            }
        }
        assert forall|p: int| 0 <= p < before.areas@.len() implies self.areas@[p]
            == before.areas@[p] by {
            if kind == AgentKind::Area {
                assert(self.areas@.drop_last()[p] == self.areas@[p]);
            }
        }
        assert forall|p: int| 0 <= p < before.netstations@.len() implies self.netstations@[p]
            == before.netstations@[p] by {
            if kind == AgentKind::Netstation {
                assert(self.netstations@.drop_last()[p] == self.netstations@[p]);
            }
        }
        assert forall|p: int| 0 <= p < before.households@.len() implies self.households@[p]
            == before.households@[p] by {
            if kind == AgentKind::Household {
                assert(self.households@.drop_last()[p] == self.households@[p]);
            }
        }
        assert forall|i: int| 0 <= i < self.agents@.len() implies self.entry_is_valid(i) by {
            if i < n {
                assert(before.entry_is_valid(i));
            }
        }
        assert forall|i: int| 0 < i < self.agents@.len() implies (#[trigger] self.agents@[i]).kind
            != AgentKind::Root by {
            if i < n {
                assert(before.agents@[i].kind != AgentKind::Root);
            }
        }
        self.lemma_added_keeps_counts(before, kind, parent);
    }
}

} // verus!
