//! The graph that records which agent stands under which.
use crate::agent::AgentKind;
use crate::util::{BaseInt, BaseUint, ModelError};
use petgraph::graph::NodeIndex;
use petgraph::{Directed, Graph};
use vstd::prelude::*;
use vstd::string::StringExecFns;

verus! {

/// The edge type of a graph whose edges have a direction.
#[verifier::external_type_specification]
#[verifier::external_body]
pub struct ExDirected(Directed);

/// The graph structure that keeps nodes and edges in the order in which they
/// were added.
#[verifier::external_type_specification]
#[verifier::external_body]
#[verifier::reject_recursive_types(N)]
#[verifier::reject_recursive_types(E)]
#[verifier::reject_recursive_types(Ty)]
#[verifier::reject_recursive_types(Ix)]
pub struct ExGraph<N, E, Ty, Ix>(Graph<N, E, Ty, Ix>);

/// The weights of the nodes of the graph, in the order of their indices.
pub uninterp spec fn graph_nodes(graph: Graph<BaseInt, BaseInt, Directed, u32>) -> Seq<BaseInt>;

/// The edges of the graph, each as the indices of the node it leaves and of the
/// node it enters, in the order in which they were added.
pub uninterp spec fn graph_edges(graph: Graph<BaseInt, BaseInt, Directed, u32>) -> Seq<
    (BaseUint, BaseUint),
>;

/// The nodes that the edges leaving `node` enter, in the order of the edges.
pub open spec fn targets_from(edges: Seq<(BaseUint, BaseUint)>, node: BaseUint) -> Seq<BaseUint>
    decreases edges.len(),
{
    if edges.len() == 0 {
        Seq::empty()
    } else if edges.last().0 == node {
        targets_from(edges.drop_last(), node).push(edges.last().1)
    } else {
        targets_from(edges.drop_last(), node)
    }
}

/// `Graph::default` of petgraph: a graph without nodes and edges.
#[verifier::external_body]
fn graph_empty() -> (graph: Graph<BaseInt, BaseInt, Directed, u32>)
    ensures
        graph_nodes(graph) == Seq::<BaseInt>::empty(),
        graph_edges(graph) == Seq::<(BaseUint, BaseUint)>::empty(),
{
    Graph::default()
}

/// `Graph::node_count` of petgraph: the number of nodes.
#[verifier::external_body]
fn graph_node_count(graph: &Graph<BaseInt, BaseInt, Directed, u32>) -> (count: usize)
    ensures
        count == graph_nodes(*graph).len(),
{
    graph.node_count()
}

/// `Graph::edge_count` of petgraph: the number of edges.
#[verifier::external_body]
fn graph_edge_count(graph: &Graph<BaseInt, BaseInt, Directed, u32>) -> (count: usize)
    ensures
        count == graph_edges(*graph).len(),
{
    graph.edge_count()
}

/// `Graph::add_node` of petgraph: appends a node with the given weight and
/// returns its index, which is the number of nodes there were before. The
/// edges stay as they are. The graph must have room for one more node.
#[verifier::external_body]
fn graph_add_node(graph: &mut Graph<BaseInt, BaseInt, Directed, u32>, weight: BaseInt) -> (index:
    usize)
    requires
        graph_nodes(*old(graph)).len() < u32::MAX,
    ensures
        graph_nodes(*final(graph)) == graph_nodes(*old(graph)).push(weight),
        graph_edges(*final(graph)) == graph_edges(*old(graph)),
        index == graph_nodes(*old(graph)).len(),
{
    graph.add_node(weight).index()
}

/// `Graph::add_edge` of petgraph: appends an edge from the node `from` to the
/// node `to`. The nodes stay as they are. Both nodes must exist and the graph
/// must have room for one more edge.
#[verifier::external_body]
fn graph_add_edge(
    graph: &mut Graph<BaseInt, BaseInt, Directed, u32>,
    from: BaseUint,
    to: BaseUint,
    weight: BaseInt,
)
    requires
        from < graph_nodes(*old(graph)).len(),
        to < graph_nodes(*old(graph)).len(),
        graph_edges(*old(graph)).len() < u32::MAX,
    ensures
        graph_nodes(*final(graph)) == graph_nodes(*old(graph)),
        graph_edges(*final(graph)) == graph_edges(*old(graph)).push((from, to)),
{
    graph.add_edge(NodeIndex::new(from as usize), NodeIndex::new(to as usize), weight);
}

/// `Graph::neighbors` of petgraph on a directed graph: the nodes that the
/// edges leaving `node` enter, one for each such edge. Nothing is said of the
/// order in which they come. A node that is not in the graph has none.
#[verifier::external_body]
fn graph_neighbors(graph: &Graph<BaseInt, BaseInt, Directed, u32>, node: BaseUint) -> (targets:
    Vec<BaseUint>)
    ensures
        targets@.to_multiset() == targets_from(graph_edges(*graph), node).to_multiset(),
{
    let mut targets = Vec::new();
    for neighbour in graph.neighbors(NodeIndex::from(node)) {
        targets.push(neighbour.index() as BaseUint);
    }
    targets
}

/// `sort_unstable` of the standard library on a vector of unsigned integers:
/// the same values, each as often as before, in ascending order.
#[verifier::external_body]
fn sort_ascending(values: &mut Vec<BaseUint>)
    ensures
        final(values)@.to_multiset() == old(values)@.to_multiset(),
        ascending(final(values)@),
{
    values.sort_unstable();
}

/// The name of a kind of agent.
pub open spec fn kind_text(kind: AgentKind) -> Seq<char> {
    match kind {
        AgentKind::Root => "Root"@,
        AgentKind::Connection => "Connection"@,
        AgentKind::Area => "Area"@,
        AgentKind::Netstation => "Netstation"@,
        AgentKind::Household => "Household"@,
    }
}

/// The digit that stands for a number below ten.
pub open spec fn digit_text(digit: int) -> Seq<char> {
    if digit == 0 {
        "0"@
    } else if digit == 1 {
        "1"@
    } else if digit == 2 {
        "2"@
    } else if digit == 3 {
        "3"@
    } else if digit == 4 {
        "4"@
    } else if digit == 5 {
        "5"@
    } else if digit == 6 {
        "6"@
    } else if digit == 7 {
        "7"@
    } else if digit == 8 {
        "8"@
    } else {
        "9"@
    }
}

/// A number as it is written in decimal digits.
pub open spec fn decimal_text(number: nat) -> Seq<char>
    decreases number,
{
    if number < 10 {
        digit_text(number as int)
    } else {
        decimal_text(number / 10) + digit_text((number % 10) as int)
    }
}

/// What the error for a node that did not get the index of its agent says.
pub open spec fn node_mismatch_text(agent_kind: AgentKind, agent_index: BaseUint) -> Seq<char> {
    "Something went wrong with creating a "@ + kind_text(agent_kind) + " node with index "@
        + decimal_text(agent_index as nat)
}

/// What the error for an edge that the graph can not take says.
pub open spec fn edge_refused_text(from: BaseUint, to: BaseUint) -> Seq<char> {
    "Something went wrong with creating an edge from "@ + decimal_text(from as nat) + " to "@
        + decimal_text(to as nat)
}

/// The name of a kind of agent.
fn kind_name(kind: AgentKind) -> (name: &'static str)
    ensures
        name@ == kind_text(kind),
{
    match kind {
        AgentKind::Root => "Root",
        AgentKind::Connection => "Connection",
        AgentKind::Area => "Area",
        AgentKind::Netstation => "Netstation",
        AgentKind::Household => "Household",
    }
}

/// The digit that stands for a number below ten.
fn digit(value: BaseUint) -> (text: &'static str)
    requires
        value < 10,
    ensures
        text@ == digit_text(value as int),
{
    if value == 0 {
        "0"
    } else if value == 1 {
        "1"
    } else if value == 2 {
        "2"
    } else if value == 3 {
        "3"
    } else if value == 4 {
        "4"
    } else if value == 5 {
        "5"
    } else if value == 6 {
        "6"
    } else if value == 7 {
        "7"
    } else if value == 8 {
        "8"
    } else {
        "9"
    }
}

/// The number in decimal digits.
fn decimal(number: BaseUint) -> (text: String)
    ensures
        text@ == decimal_text(number as nat),
    decreases number,
{
    if number < 10 {
        String::from_str(digit(number))
    } else {
        decimal(number / 10).concat(digit(number % 10))
    }
}

/// The error for a node that did not get the index of its agent.
fn node_mismatch(agent_kind: AgentKind, agent_index: BaseUint) -> (error: ModelError)
    ensures
        error is GraphError,
        error->GraphError_0@ == node_mismatch_text(agent_kind, agent_index),
{
    let index = decimal(agent_index);
    ModelError::GraphError(
        String::from_str("Something went wrong with creating a ").concat(
            kind_name(agent_kind),
        ).concat(" node with index ").concat(index.as_str()),
    )
}

/// The error for an edge that the graph can not take.
fn edge_refused(from: BaseUint, to: BaseUint) -> (error: ModelError)
    ensures
        error is GraphError,
        error->GraphError_0@ == edge_refused_text(from, to),
{
    let source = decimal(from);
    let target = decimal(to);
    ModelError::GraphError(
        String::from_str("Something went wrong with creating an edge from ").concat(
            source.as_str(),
        ).concat(" to ").concat(target.as_str()),
    )
}

/// No value of the sequence is larger than one that comes after it.
pub open spec fn ascending(values: Seq<BaseUint>) -> bool {
    forall|i: int, j: int| 0 <= i < j < values.len() ==> values[i] <= values[j]
}

/// Every value of the sequence is smaller than the one that comes after it.
pub open spec fn strictly_ascending(values: Seq<BaseUint>) -> bool {
    forall|i: int, j: int| 0 <= i < j < values.len() ==> values[i] < values[j]
}

/// The signed indices as the unsigned ones they stand for.
pub open spec fn as_nodes(children: Seq<BaseInt>) -> Seq<BaseUint> {
    Seq::new(children.len(), |i: int| children[i] as BaseUint)
}

/// Largest number of nodes that a graph takes: every index has to fit a signed
/// integer.
pub const MAX_NODES: usize = 0x7fff_ffff;

/// Largest number of edges that a graph takes.
pub const MAX_EDGES: usize = 0xffff_fffe;

/// Two ascending sequences that hold the same values, each as often as the
/// other, are the same sequence.
pub proof fn lemma_ascending_is_unique(a: Seq<BaseUint>, b: Seq<BaseUint>)
    requires
        ascending(a),
        ascending(b),
        a.to_multiset() == b.to_multiset(),
    ensures
        a == b,
{
    let leq = |x: BaseUint, y: BaseUint| x <= y;
    assert(vstd::relations::total_ordering(leq));
    assert(vstd::relations::sorted_by(a, leq));
    assert(vstd::relations::sorted_by(b, leq));
    vstd::seq_lib::lemma_sorted_unique(a, b, leq);
}

/// There is an edge from `node` to `target`.
pub open spec fn has_edge(edges: Seq<(BaseUint, BaseUint)>, node: BaseUint, target: BaseUint) -> bool {
    exists|k: int| 0 <= k < edges.len() && #[trigger] edges[k] == (node, target)
}

/// Every node that `targets_from` lists is the target of an edge that leaves
/// `node`.
pub proof fn lemma_targets_are_edge_targets(edges: Seq<(BaseUint, BaseUint)>, node: BaseUint)
    ensures
        forall|i: int|
            0 <= i < targets_from(edges, node).len() ==> has_edge(
                edges,
                node,
                #[trigger] targets_from(edges, node)[i],
            ),
    decreases edges.len(),
{
    if edges.len() > 0 {
        let shorter = edges.drop_last();
        lemma_targets_are_edge_targets(shorter, node);
        let rest = targets_from(shorter, node);
        assert forall|i: int| 0 <= i < targets_from(edges, node).len() implies has_edge(
            edges,
            node,
            #[trigger] targets_from(edges, node)[i],
        ) by {
            if i < rest.len() {
                assert(targets_from(edges, node)[i] == rest[i]);
                assert(has_edge(shorter, node, rest[i]));
                let k = choose|k: int| 0 <= k < shorter.len() && #[trigger] shorter[k] == (node, rest[i]);
                assert(edges[k] == shorter[k]);
            } else {
                assert(edges[edges.len() - 1] == (node, targets_from(edges, node)[i]));
            }
        }
    }
}

/// A newtype struct for encapsulating the graph. It defines the types of the
/// graph.
pub struct MyGraph {
    /// Inner graph
    pub content: Graph<BaseInt, BaseInt, Directed, u32>,
}

impl MyGraph {
    /// The weights of the nodes, in the order of their indices.
    pub open spec fn nodes(&self) -> Seq<BaseInt> {
        graph_nodes(self.content)
    }

    /// The edges, each as the pair of the indices of its source and its
    /// target, in the order in which they were added.
    pub open spec fn edges(&self) -> Seq<(BaseUint, BaseUint)> {
        graph_edges(self.content)
    }

    /// The children of a node: the targets of the edges that leave it, in the
    /// order in which the edges were added.
    pub open spec fn children_of(&self, node: BaseUint) -> Seq<BaseUint> {
        targets_from(self.edges(), node)
    }

    /// The graph is within its size limits and every edge joins two of its
    /// nodes.
    pub open spec fn wf(&self) -> bool {
        &&& self.nodes().len() <= MAX_NODES
        &&& self.edges().len() <= MAX_EDGES
        &&& forall|k: int|
            0 <= k < self.edges().len() ==> (#[trigger] self.edges()[k]).0 < self.nodes().len()
                && self.edges()[k].1 < self.nodes().len()
    }

    /// A graph without nodes and edges.
    pub fn new() -> (graph: Self)
        ensures
            graph.nodes() == Seq::<BaseInt>::empty(),
            graph.edges() == Seq::<(BaseUint, BaseUint)>::empty(),
            graph.wf(),
    {
        MyGraph { content: graph_empty() }
    }

    /// Get the children of a node from the graph, in ascending order of their
    /// indices. A negative index stands for no node and has no children.
    pub fn get_children(&self, node_index: &BaseInt) -> (children: Result<Vec<BaseInt>, ModelError>)
        requires
            self.wf(),
        ensures
            children is Ok,
            ascending(as_nodes(children->Ok_0@)),
            forall|i: int| 0 <= i < children->Ok_0@.len() ==> 0 <= #[trigger] children->Ok_0@[i],
            *node_index >= 0 ==> as_nodes(children->Ok_0@).to_multiset() == self.children_of(
                *node_index as BaseUint,
            ).to_multiset(),
            *node_index < 0 ==> children->Ok_0@.len() == 0,
    {
        let mut res: Vec<BaseInt> = Vec::new();
        if *node_index < 0 {
            return Ok(res);
        }
        let node: BaseUint = *node_index as BaseUint;
        let mut neighbours = graph_neighbors(&self.content, node);
        sort_ascending(&mut neighbours);
        proof {
            lemma_targets_are_edge_targets(self.edges(), node);
            broadcast use vstd::seq_lib::group_to_multiset_ensures;

            assert forall|i: int| 0 <= i < neighbours@.len() implies #[trigger] neighbours@[i]
                < self.nodes().len() by {
                let target = neighbours@[i];
                assert(neighbours@.contains(target));
                assert(self.children_of(node).to_multiset().count(target) > 0);
                assert(self.children_of(node).contains(target));
                let j = choose|j: int|
                    0 <= j < self.children_of(node).len() && self.children_of(node)[j] == target;
                assert(has_edge(self.edges(), node, self.children_of(node)[j]));
                let k = choose|k: int|
                    0 <= k < self.edges().len() && #[trigger] self.edges()[k] == (node, target);
                assert(self.edges()[k].1 < self.nodes().len());
            }
        }
        let mut i: usize = 0;
        while i < neighbours.len()
            invariant
                i <= neighbours.len(),
                res@.len() == i,
                forall|k: int| 0 <= k < neighbours@.len() ==> #[trigger] neighbours@[k] <= MAX_NODES,
                forall|k: int| 0 <= k < i ==> 0 <= #[trigger] res@[k] && res@[k] == neighbours@[k],
            decreases neighbours.len() - i,
        {
            res.push(neighbours[i] as BaseInt);
            i = i + 1;
        }
        proof {
            assert(as_nodes(res@) =~= neighbours@);
        }
        Ok(res)
    }

    /// Number of nodes in the graph.
    pub fn node_count(&self) -> (count: usize)
        ensures
            count == self.nodes().len(),
    {
        graph_node_count(&self.content)
    }

    /// Directed edge add. An edge between nodes that are not both in the
    /// graph, or one more edge than the graph can take, is refused.
    pub fn add_edge(&mut self, from: BaseUint, to: BaseUint) -> (added: Result<(), ModelError>)
        requires
            old(self).wf(),
        ensures
            final(self).wf(),
            final(self).nodes() == old(self).nodes(),
            added is Ok <==> from < old(self).nodes().len() && to < old(self).nodes().len()
                && old(self).edges().len() < MAX_EDGES,
            added is Ok ==> final(self).edges() == old(self).edges().push((from, to)),
            added is Err ==> added->Err_0 is GraphError && added->Err_0->GraphError_0@
                == edge_refused_text(from, to) && final(self).edges() == old(self).edges(),
    {
        let count = graph_node_count(&self.content);
        let edges = graph_edge_count(&self.content);
        if (from as usize) < count && (to as usize) < count && edges < MAX_EDGES {
            graph_add_edge(&mut self.content, from, to, 1);
            Ok(())
        } else {
            Err(edge_refused(from, to))
        }
    }

    /// Add node. The node gets the next free index of the graph, which has to
    /// be the index of the agent that it stands for: anything else is an error,
    /// and so is one more node than the graph can take.
    pub fn add_node(&mut self, agent_kind: AgentKind, agent_index: BaseUint) -> (added: Result<
        (),
        ModelError,
    >)
        requires
            old(self).wf(),
        ensures
            final(self).wf(),
            final(self).edges() == old(self).edges(),
            added is Ok <==> agent_index == old(self).nodes().len() && old(self).nodes().len()
                < MAX_NODES,
            added is Ok ==> final(self).nodes() == old(self).nodes().push(agent_index as BaseInt),
            added is Err ==> added->Err_0 is GraphError && added->Err_0->GraphError_0@
                == node_mismatch_text(agent_kind, agent_index) && final(self).nodes() == old(
                self,
            ).nodes(),
    {
        let count = graph_node_count(&self.content);
        if count < MAX_NODES && agent_index as usize == count {
            let graph_index = graph_add_node(&mut self.content, agent_index as BaseInt);
            Ok(())
        } else {
            Err(node_mismatch(agent_kind, agent_index))
        }
    }
}

impl Default for MyGraph {
    fn default() -> (graph: Self)
        ensures
            graph.nodes() == Seq::<BaseInt>::empty(),
            graph.edges() == Seq::<(BaseUint, BaseUint)>::empty(),
            graph.wf(),
    {
        MyGraph::new()
    }
}

} // verus!
