use vstd::prelude::*;
use petgraph::stable_graph::NodeIndex;
use petgraph::stable_graph::StableGraph;
use petgraph::visit::EdgeRef;
use petgraph::visit::IntoEdgeReferences;
use petgraph::Directed;
use crate::edge::Edge;
use crate::edge::Wire;
use crate::node::Node;

verus! {

/// `petgraph::stable_graph::StableGraph`, held as an opaque value.
#[verifier::external_type_specification]
#[verifier::external_body]
#[verifier::reject_recursive_types(N)]
#[verifier::reject_recursive_types(E)]
#[verifier::reject_recursive_types(Ty)]
#[verifier::reject_recursive_types(Ix)]
pub struct ExStableGraph<N, E, Ty, Ix>(StableGraph<N, E, Ty, Ix>);

/// `petgraph::Directed`, the marker of graphs whose edges have a direction.
#[verifier::external_type_specification]
#[verifier::external_body]
pub struct ExDirected(Directed);

/// The nodes that the graph holds, each under its node index.
pub uninterp spec fn graph_nodes(graph: StableGraph<Node, Edge, Directed, u32>) -> Map<u32, Node>;

/// The edges that the graph holds, each under its edge index, with the
/// indices of the nodes it joins.
pub uninterp spec fn graph_wires(graph: StableGraph<Node, Edge, Directed, u32>) -> Map<u32, Wire>;

/// The wires that neither start nor end at the node held at `index`, under
/// their own edge indices.
pub open spec fn wires_clear_of(wires: Map<u32, Wire>, index: u32) -> Map<u32, Wire> {
    Map::new(|e: u32| wires.contains_key(e) && !wires[e].touches(index), |e: u32| wires[e])
}

/// `StableGraph::new`: a graph without nodes and without edges.
#[verifier::external_body]
pub(crate) fn graph_new() -> (graph: StableGraph<Node, Edge, Directed, u32>)
    ensures
        graph_nodes(graph).dom() == Set::<u32>::empty(),
        graph_wires(graph).dom() == Set::<u32>::empty(),
{
    StableGraph::new()
}

/// `StableGraph::node_count`: the number of nodes held.
#[verifier::external_body]
pub(crate) fn graph_node_count(graph: &StableGraph<Node, Edge, Directed, u32>) -> (count: usize)
    ensures
        count == graph_nodes(*graph).dom().len(),
{
    graph.node_count()
}

/// `StableGraph::edge_count`: the number of edges held.
#[verifier::external_body]
pub(crate) fn graph_edge_count(graph: &StableGraph<Node, Edge, Directed, u32>) -> (count: usize)
    ensures
        count == graph_wires(*graph).dom().len(),
{
    graph.edge_count()
}

/// `StableGraph::add_node`: the node is stored under an index that held no
/// node, and that index is returned; the other nodes and all edges stay as
/// they are. The call panics on a graph that holds as many nodes as a `u32`
/// index can tell apart, which `requires` leaves out.
#[verifier::external_body]
pub(crate) fn graph_add_node(graph: &mut StableGraph<Node, Edge, Directed, u32>, node: Node) -> (id:
    u32)
    requires
        graph_nodes(*old(graph)).dom().finite(),
        graph_nodes(*old(graph)).dom().len() < u32::MAX,
    ensures
        !graph_nodes(*old(graph)).contains_key(id),
        graph_nodes(*final(graph)) == graph_nodes(*old(graph)).insert(id, node),
        graph_wires(*final(graph)) == graph_wires(*old(graph)),
{
    graph.add_node(node).index() as u32
}

/// `StableGraph::remove_node`: a node held under `id` leaves the graph with
/// every edge that starts or ends at it, and is returned; all other nodes and
/// edges keep their indices. Where no node is held under `id`, nothing
/// changes and `None` is returned.
#[verifier::external_body]
pub(crate) fn graph_remove_node(graph: &mut StableGraph<Node, Edge, Directed, u32>, id: u32) -> (removed:
    Option<Node>)
    ensures
        removed == graph_nodes(*old(graph)).index_opt(id),
        graph_nodes(*final(graph)) == graph_nodes(*old(graph)).remove(id),
        removed is Some ==> graph_wires(*final(graph)) == wires_clear_of(
            graph_wires(*old(graph)),
            id,
        ),
        removed is None ==> graph_wires(*final(graph)) == graph_wires(*old(graph)),
{
    graph.remove_node(NodeIndex::new(id as usize))
}

/// `StableGraph::add_edge`: an edge from `source` to `target` with the weight
/// `edge` is stored under an index that held no edge, and that index is
/// returned; the nodes and the other edges stay as they are. The call panics
/// where one of the two nodes is not in the graph, or on a graph that holds
/// as many edges as a `u32` index can tell apart; `requires` leaves both out.
#[verifier::external_body]
pub(crate) fn graph_add_edge(
    graph: &mut StableGraph<Node, Edge, Directed, u32>,
    source: u32,
    target: u32,
    edge: Edge,
) -> (id: u32)
    requires
        graph_nodes(*old(graph)).contains_key(source),
        graph_nodes(*old(graph)).contains_key(target),
        graph_wires(*old(graph)).dom().finite(),
        graph_wires(*old(graph)).dom().len() < u32::MAX,
    ensures
        !graph_wires(*old(graph)).contains_key(id),
        graph_wires(*final(graph)) == graph_wires(*old(graph)).insert(
            id,
            (Wire { source, target, edge }),
        ),
        graph_nodes(*final(graph)) == graph_nodes(*old(graph)),
{
    graph.add_edge(NodeIndex::new(source as usize), NodeIndex::new(target as usize), edge).index() as u32
}

/// `StableGraph::node_weight`: the node held under `id`, if there is one.
#[verifier::external_body]
pub(crate) fn graph_node(graph: &StableGraph<Node, Edge, Directed, u32>, id: u32) -> (node: Option<
    &Node,
>)
    ensures
        (node is Some) == graph_nodes(*graph).contains_key(id),
        node is Some ==> *node->0 == graph_nodes(*graph)[id],
{
    graph.node_weight(NodeIndex::new(id as usize))
}

/// Indexing a `StableGraph` by a node index, mutably: a reference to the
/// node held under `id`; what is written through it is what the graph then
/// holds there. The call panics where no node is held under `id`, which
/// `requires` leaves out.
#[verifier::external_body]
pub(crate) fn graph_node_mut(graph: &mut StableGraph<Node, Edge, Directed, u32>, id: u32) -> (node:
    &mut Node)
    requires
        graph_nodes(*old(graph)).contains_key(id),
    ensures
        *node == graph_nodes(*old(graph))[id],
        graph_nodes(*final(graph)) == graph_nodes(*old(graph)).insert(id, *final(node)),
        graph_wires(*final(graph)) == graph_wires(*old(graph)),
{
    &mut graph[NodeIndex::new(id as usize)]
}

/// `StableGraph::node_indices`: the indices under which nodes are held, each
/// once, in rising order.
#[verifier::external_body]
pub(crate) fn graph_node_ids(graph: &StableGraph<Node, Edge, Directed, u32>) -> (ids: Vec<u32>)
    ensures
        (forall|i: int, j: int| 0 <= i < j < ids@.len() ==> ids@[i] < ids@[j]),
        (forall|k: int| 0 <= k < ids@.len() ==> graph_nodes(*graph).contains_key(#[trigger] ids@[k])),
        (forall|id: u32| graph_nodes(*graph).contains_key(id) ==> ids@.contains(id)),
{
    graph.node_indices().map(|i| i.index() as u32).collect()
}

/// `StableGraph::edge_references`: every edge held, each once, in rising
/// order of the edge indices, with its index, the indices of the nodes it
/// joins, and its weight.
#[verifier::external_body]
pub(crate) fn graph_wire_list(graph: &StableGraph<Node, Edge, Directed, u32>) -> (wires: Vec<
    (u32, Wire),
>)
    ensures
        (forall|i: int, j: int| 0 <= i < j < wires@.len() ==> wires@[i].0 < wires@[j].0),
        (forall|k: int|
            0 <= k < wires@.len() ==> graph_wires(*graph).contains_key((#[trigger] wires@[k]).0)
                && graph_wires(*graph)[wires@[k].0] == wires@[k].1),
        (forall|id: u32|
            graph_wires(*graph).contains_key(id) ==> exists|k: int|
                0 <= k < wires@.len() && (#[trigger] wires@[k]).0 == id),
{
    graph.edge_references().map(
        |e|
            (
                e.id().index() as u32,
                Wire {
                    source: e.source().index() as u32,
                    target: e.target().index() as u32,
                    edge: *e.weight(),
                },
            ),
    ).collect()
}

} // verus!
