//! The node and edge tables, kept in a `petgraph` stable graph.
//!
//! Nothing in this file is proved. Each function states what the code of
//! `petgraph` does to the tables, and the rest of the crate is verified
//! against these statements.

use vstd::prelude::*;
use petgraph::stable_graph::NodeIndex;
use petgraph::stable_graph::StableGraph;
use petgraph::visit::EdgeRef;
use petgraph::visit::IntoEdgeReferences;
use crate::graph::edge::edges_without;
use crate::graph::edge::EdgeId;
use crate::graph::edge::EdgeType;
use crate::graph::edge::Link;
use crate::graph::node::Stamped;

verus! {

/// `petgraph::stable_graph::StableGraph`, a graph whose indices stay valid
/// when other nodes and edges are removed.
#[verifier::external_type_specification]
#[verifier::external_body]
#[verifier::reject_recursive_types(N)]
#[verifier::reject_recursive_types(E)]
#[verifier::reject_recursive_types(Ty)]
#[verifier::reject_recursive_types(Ix)]
pub struct ExStableGraph<N, E, Ty, Ix>(StableGraph<N, E, Ty, Ix>);

/// `petgraph::Directed`, the marker of a graph with directed edges.
#[verifier::external_type_specification]
#[verifier::external_body]
pub struct ExDirected(petgraph::Directed);

/// The nodes that a stable graph holds: each index in use, with the weight
/// stored there.
pub uninterp spec fn store_nodes(g: StableGraph<Stamped, EdgeType>) -> Map<int, Stamped>;

/// The edges that a stable graph holds: each edge index in use, with the
/// indices of the two endpoints and the weight stored there.
pub uninterp spec fn store_edges(g: StableGraph<Stamped, EdgeType>) -> Map<int, Link>;

/// The number of node slots of a stable graph, the vacant ones included. A
/// slot is made when a node is added while no slot is vacant, and it becomes
/// vacant when its node is removed.
pub uninterp spec fn store_node_slots(g: StableGraph<Stamped, EdgeType>) -> nat;

/// `StableGraph::new`: a graph without nodes, edges or slots.
#[verifier::external_body]
pub(crate) fn store_new() -> (g: StableGraph<Stamped, EdgeType>)
    ensures
        store_nodes(g).dom() == Set::<int>::empty(),
        store_edges(g).dom() == Set::<int>::empty(),
        store_node_slots(g) == 0,
{
    StableGraph::new()
}

/// `StableGraph::node_count`: the number of nodes held.
#[verifier::external_body]
pub(crate) fn store_node_count(g: &StableGraph<Stamped, EdgeType>) -> (n: usize)
    ensures
        n == store_nodes(*g).dom().len(),
{
    g.node_count()
}

/// `StableGraph::edge_count`: the number of edges held.
#[verifier::external_body]
pub(crate) fn store_edge_count(g: &StableGraph<Stamped, EdgeType>) -> (n: usize)
    ensures
        n == store_edges(*g).dom().len(),
{
    g.edge_count()
}

/// `StableGraph::add_node`: stores the weight at an index that was not in
/// use and returns that index. Where no slot is vacant, which is when the
/// nodes are as many as the slots, the index is that of a new slot, the
/// number of slots so far; else it is that of a vacant slot. The edges are
/// not touched. The last index of the index type is never handed out: the
/// call panics when a new slot would get it, so the caller keeps the nodes
/// below that number.
#[verifier::external_body]
pub(crate) fn store_add_node(g: &mut StableGraph<Stamped, EdgeType>, node: Stamped) -> (index: u32)
    requires
        store_nodes(*old(g)).dom().len() < u32::MAX,
    ensures
        index < u32::MAX,
        !store_nodes(*old(g)).dom().contains(index as int),
        store_nodes(*final(g)) == store_nodes(*old(g)).insert(index as int, node),
        store_edges(*final(g)) == store_edges(*old(g)),
        store_nodes(*old(g)).dom().len() == store_node_slots(*old(g)) ==> index
            == store_node_slots(*old(g)) && store_node_slots(*final(g)) == store_node_slots(
            *old(g),
        ) + 1,
        store_nodes(*old(g)).dom().len() != store_node_slots(*old(g)) ==> index
            < store_node_slots(*old(g)) && store_node_slots(*final(g)) == store_node_slots(
            *old(g),
        ),
{
    g.add_node(node).index() as u32
}

/// `StableGraph::node_weight`: the weight stored at an index, if the index
/// is in use.
#[verifier::external_body]
pub(crate) fn store_node<'a>(g: &'a StableGraph<Stamped, EdgeType>, index: u32) -> (r: Option<
    &'a Stamped,
>)
    ensures
        r matches Some(n) ==> store_nodes(*g).dom().contains(index as int) && *n
            == store_nodes(*g)[index as int],
        r is None ==> !store_nodes(*g).dom().contains(index as int),
{
    g.node_weight(NodeIndex::new(index as usize))
}

/// `StableGraph::node_weight_mut`: the weight stored at an index, if the
/// index is in use, for the caller to change in place. Nothing else
/// changes.
#[verifier::external_body]
pub(crate) fn store_node_mut<'a>(g: &'a mut StableGraph<Stamped, EdgeType>, index: u32) -> (r:
    Option<&'a mut Stamped>)
    ensures
        r matches Some(n) ==> store_nodes(*old(g)).dom().contains(index as int) && *n
            == store_nodes(*old(g))[index as int] && store_nodes(*final(g)) == store_nodes(
            *old(g),
        ).insert(index as int, *final(n)),
        r is None ==> !store_nodes(*old(g)).dom().contains(index as int) && store_nodes(
            *final(g),
        ) == store_nodes(*old(g)),
        store_edges(*final(g)) == store_edges(*old(g)),
        store_node_slots(*final(g)) == store_node_slots(*old(g)),
{
    g.node_weight_mut(NodeIndex::new(index as usize))
}

/// `StableGraph::remove_node`: where the index is in use, takes the node
/// out, returns its weight, and takes out every edge that starts or ends at
/// it; the other nodes and edges keep their indices, and the slot stays,
/// vacant. Where the index is not in use, nothing changes.
#[verifier::external_body]
pub(crate) fn store_remove_node(g: &mut StableGraph<Stamped, EdgeType>, index: u32) -> (r: Option<
    Stamped,
>)
    ensures
        r matches Some(n) ==> store_nodes(*old(g)).dom().contains(index as int) && n
            == store_nodes(*old(g))[index as int],
        r is Some ==> store_nodes(*final(g)) == store_nodes(*old(g)).remove(index as int)
            && store_edges(*final(g)) == edges_without(store_edges(*old(g)), index),
        r is None ==> !store_nodes(*old(g)).dom().contains(index as int) && store_nodes(
            *final(g),
        ) == store_nodes(*old(g)) && store_edges(*final(g)) == store_edges(*old(g)),
        store_node_slots(*final(g)) == store_node_slots(*old(g)),
{
    g.remove_node(NodeIndex::new(index as usize))
}

/// `StableGraph::add_edge`: stores the edge between the two nodes at an
/// edge index that was not in use and returns that index. The nodes are not
/// touched. The last index of the index type is never handed out. The call
/// panics where an endpoint is not in the graph, and when a new edge slot
/// would get that last index, so the caller rules both out.
#[verifier::external_body]
pub(crate) fn store_add_edge(g: &mut StableGraph<Stamped, EdgeType>, edge: Link) -> (id: EdgeId)
    requires
        store_nodes(*old(g)).dom().contains(edge.source as int),
        store_nodes(*old(g)).dom().contains(edge.target as int),
        store_edges(*old(g)).dom().len() < u32::MAX,
    ensures
        id.index < u32::MAX,
        !store_edges(*old(g)).dom().contains(id.index as int),
        store_edges(*final(g)) == store_edges(*old(g)).insert(id.index as int, edge),
        store_nodes(*final(g)) == store_nodes(*old(g)),
        store_node_slots(*final(g)) == store_node_slots(*old(g)),
{
    let a = NodeIndex::new(edge.source as usize);
    let b = NodeIndex::new(edge.target as usize);
    EdgeId { index: g.add_edge(a, b, edge.edge_type).index() as u32 }
}

/// `StableGraph::clear`: takes out all nodes, edges and slots.
#[verifier::external_body]
pub(crate) fn store_clear(g: &mut StableGraph<Stamped, EdgeType>)
    ensures
        store_nodes(*final(g)).dom() == Set::<int>::empty(),
        store_edges(*final(g)).dom() == Set::<int>::empty(),
        store_node_slots(*final(g)) == 0,
{
    g.clear()
}

/// `StableGraph::node_indices`: the indices in use, each once, from the
/// smallest to the largest.
#[verifier::external_body]
pub(crate) fn store_node_ids(g: &StableGraph<Stamped, EdgeType>) -> (ids: Vec<u32>)
    ensures
        ids@.len() == store_nodes(*g).dom().len(),
        forall|i: int, j: int| 0 <= i < j < ids@.len() ==> ids@[i] < ids@[j],
        forall|i: int| 0 <= i < ids@.len() ==> store_nodes(*g).dom().contains(ids@[i] as int),
        forall|k: int|
            store_nodes(*g).dom().contains(k) ==> exists|i: int| 0 <= i < ids@.len() && ids@[i] == k,
{
    g.node_indices().map(|i| i.index() as u32).collect()
}

/// `StableGraph::edge_references`: the edges held, each once, from the
/// smallest edge index to the largest, each with its index, its endpoints
/// and its weight.
#[verifier::external_body]
pub(crate) fn store_edge_list(g: &StableGraph<Stamped, EdgeType>) -> (list: Vec<(EdgeId, Link)>)
    ensures
        list@.len() == store_edges(*g).dom().len(),
        forall|i: int, j: int| 0 <= i < j < list@.len() ==> list@[i].0.index < list@[j].0.index,
        forall|i: int|
            0 <= i < list@.len() ==> store_edges(*g).dom().contains(list@[i].0.index as int)
                && store_edges(*g)[list@[i].0.index as int] == list@[i].1,
        forall|k: int|
            store_edges(*g).dom().contains(k) ==> exists|i: int|
                0 <= i < list@.len() && list@[i].0.index == k,
{
    g.edge_references().map(
        |e| (
            EdgeId { index: e.id().index() as u32 },
            Link {
                source: e.source().index() as u32,
                target: e.target().index() as u32,
                edge_type: *e.weight(),
            },
        ),
    ).collect()
}

} // verus!
