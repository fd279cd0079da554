//! What a graph holds, as mathematics, and what its operations do to it.

use vstd::prelude::*;
use crate::graph::edge::edges_without;
use crate::graph::edge::Edge;
use crate::graph::edge::EdgeId;
use crate::graph::edge::EdgeType;
use crate::graph::edge::Link;
use crate::graph::node::Node;
use crate::graph::node::NodeId;
use crate::graph::temp_edge::TempEdge;

verus! {

/// Why an edge was not added.
#[derive(Clone, Copy, Debug, PartialEq, Eq, Structural)]
pub enum GraphError {
    /// The source or the target is not a node of the graph.
    MissingEndpoint,
    /// The edge table holds as many edges as it can index.
    Full,
}

/// The content of a graph.
pub struct GraphModel {
    /// The nodes by the index of their slot.
    pub nodes: Map<int, Node>,
    /// The generation of the node in each slot in use.
    pub generations: Map<int, u64>,
    /// The edges by their index.
    pub edges: Map<int, Link>,
    /// How many node slots were ever made. A slot below this number that no
    /// node has is vacant and is used again before a new one is made.
    pub slots: nat,
    /// Every identity that the graph has ever handed out.
    pub issued: Set<NodeId>,
    /// The generation that the next node gets: the number of nodes ever
    /// added.
    pub next_generation: nat,
    /// The node picked by a click, if any.
    pub selected: Option<NodeId>,
    /// The node whose label is being edited, if any.
    pub editing: Option<NodeId>,
    /// The edge that a link gesture is drawing, if any.
    pub temp_edge: Option<TempEdge>,
    /// How new edges are drawn.
    pub edge_type: EdgeType,
    /// The nodes picked by the last rectangle selection.
    pub selection: Set<NodeId>,
}

impl GraphModel {
    /// The identity is that of a node of the graph: its slot is in use, by
    /// a node of its generation.
    pub open spec fn has_node(self, id: NodeId) -> bool {
        self.nodes.dom().contains(id.index as int) && self.generations[id.index as int]
            == id.generation
    }

    /// The identity of the node in a slot; where the slot is vacant, the
    /// identity of that slot at generation zero.
    pub open spec fn handle_at(self, index: u32) -> NodeId {
        NodeId {
            index,
            generation: if self.nodes.dom().contains(index as int) {
                self.generations[index as int]
            } else {
                0
            },
        }
    }

    /// The edge between two slots, as an edge between the nodes there.
    pub open spec fn edge_of(self, link: Link) -> Edge {
        Edge {
            source: self.handle_at(link.source),
            target: self.handle_at(link.target),
            edge_type: link.edge_type,
        }
    }

    /// The consistency that every graph keeps: the tables are finite, every
    /// edge joins two nodes of the graph, every node has an identity that
    /// was handed out, identities handed out are older than the next one,
    /// whatever is selected is a node of the graph, and a node that is being
    /// edited is the selected one.
    pub open spec fn wf(self) -> bool {
        &&& self.nodes.dom().finite()
        &&& self.edges.dom().finite()
        &&& self.generations.dom() =~= self.nodes.dom()
        &&& forall|i: int| #[trigger]
            self.nodes.dom().contains(i) ==> 0 <= i < self.slots && i < u32::MAX
        &&& forall|i: int| #[trigger]
            self.nodes.dom().contains(i) ==> self.issued.contains(
                NodeId { index: i as u32, generation: self.generations[i] },
            )
        &&& forall|id: NodeId| #[trigger]
            self.issued.contains(id) ==> id.generation < self.next_generation
        &&& forall|e: int| #[trigger] self.edges.dom().contains(e) ==> 0 <= e < u32::MAX
        &&& forall|e: int| #[trigger]
            self.edges.dom().contains(e) ==> self.nodes.dom().contains(self.edges[e].source as int)
                && self.nodes.dom().contains(self.edges[e].target as int)
        &&& self.selected matches Some(s) ==> self.has_node(s)
        &&& self.editing matches Some(x) ==> self.selected == Some(x)
        &&& forall|id: NodeId| #[trigger] self.selection.contains(id) ==> self.has_node(id)
    }

    /// No slot is vacant: the next node gets a new index.
    pub open spec fn compact(self) -> bool {
        self.nodes.dom().len() == self.slots
    }

    /// The empty graph, which has handed out no identity.
    pub open spec fn empty() -> GraphModel {
        GraphModel {
            nodes: Map::empty(),
            generations: Map::empty(),
            edges: Map::empty(),
            slots: 0,
            issued: Set::empty(),
            next_generation: 0,
            selected: None,
            editing: None,
            temp_edge: None,
            edge_type: EdgeType::Line,
            selection: Set::empty(),
        }
    }

    /// The graph with one more node, under the identity `id`, which is
    /// handed out thereby.
    pub open spec fn with_node(self, id: NodeId, node: Node) -> GraphModel {
        GraphModel {
            nodes: self.nodes.insert(id.index as int, node),
            generations: self.generations.insert(id.index as int, id.generation),
            slots: if self.compact() {
                self.slots + 1
            } else {
                self.slots
            },
            issued: self.issued.insert(id),
            next_generation: self.next_generation + 1,
            ..self
        }
    }

    /// The graph with the node of the identity `id` replaced.
    pub open spec fn with_node_changed(self, id: NodeId, node: Node) -> GraphModel {
        GraphModel { nodes: self.nodes.insert(id.index as int, node), ..self }
    }

    /// Of a set of identities, those of nodes of the graph.
    pub open spec fn live(self, ids: Set<NodeId>) -> Set<NodeId> {
        Set::new(|id: NodeId| ids.contains(id) && self.has_node(id))
    }

    /// The graph after the removal of a node: the node is gone with every
    /// edge that starts or ends at it, and nothing refers to it any more.
    /// Its identity stays handed out. Without such a node the graph stays
    /// as it is.
    pub open spec fn without_node(self, id: NodeId) -> GraphModel {
        if self.has_node(id) {
            let rest = GraphModel {
                nodes: self.nodes.remove(id.index as int),
                generations: self.generations.remove(id.index as int),
                edges: edges_without(self.edges, id.index),
                selected: if self.selected == Some(id) {
                    None
                } else {
                    self.selected
                },
                editing: if self.editing == Some(id) {
                    None
                } else {
                    self.editing
                },
                ..self
            };
            GraphModel { selection: rest.live(self.selection), ..rest }
        } else {
            self
        }
    }

    /// Whether an edge can be added, and if not, why.
    pub open spec fn edge_refusal(self, edge: Edge) -> Option<GraphError> {
        if !self.has_node(edge.source) || !self.has_node(edge.target) {
            Some(GraphError::MissingEndpoint)
        } else if self.edges.dom().len() >= u32::MAX {
            Some(GraphError::Full)
        } else {
            None
        }
    }

    /// The graph with one more edge, stored at `id`.
    pub open spec fn with_edge(self, id: EdgeId, edge: Edge) -> GraphModel {
        GraphModel { edges: self.edges.insert(id.index as int, edge.link()), ..self }
    }

    /// The graph after a click selection. Selecting a node that the graph
    /// does not hold changes nothing. Editing goes on only where the node
    /// being edited is the one selected.
    pub open spec fn with_selected(self, pick: Option<NodeId>) -> GraphModel {
        match pick {
            Some(id) => if self.has_node(id) {
                GraphModel {
                    selected: pick,
                    editing: if self.editing == pick {
                        pick
                    } else {
                        None
                    },
                    ..self
                }
            } else {
                self
            },
            None => GraphModel { selected: None, editing: None, ..self },
        }
    }

    /// The graph after the start or the end of an edit. Editing a node
    /// selects it; editing a node that the graph does not hold changes
    /// nothing.
    pub open spec fn with_editing(self, pick: Option<NodeId>) -> GraphModel {
        match pick {
            Some(id) => if self.has_node(id) {
                GraphModel { selected: pick, editing: pick, ..self }
            } else {
                self
            },
            None => GraphModel { editing: None, ..self },
        }
    }

    /// The graph after a rectangle selection: of the nodes asked for, those
    /// that the graph holds.
    pub open spec fn with_selection(self, picks: Set<NodeId>) -> GraphModel {
        GraphModel { selection: self.live(picks), ..self }
    }

    /// The graph with another edge in the making, or none.
    pub open spec fn with_temp_edge(self, temp_edge: Option<TempEdge>) -> GraphModel {
        GraphModel { temp_edge, ..self }
    }

    /// The graph with another kind of edge to draw next.
    pub open spec fn with_edge_type(self, edge_type: EdgeType) -> GraphModel {
        GraphModel { edge_type, ..self }
    }

    /// The graph emptied. The kind of edge to draw next is a setting and
    /// stays. The identities handed out so far stay handed out, so that none
    /// of them comes back.
    pub open spec fn cleared(self) -> GraphModel {
        GraphModel {
            edge_type: self.edge_type,
            issued: self.issued,
            next_generation: self.next_generation,
            ..GraphModel::empty()
        }
    }
}

/// The identity that a node gets was never handed out before, and it does
/// not bring a dead identity back: whatever was handed out and is not a
/// node of the graph is none after the addition either.
pub proof fn lemma_added_identity_is_new(m: GraphModel, id: NodeId, node: Node)
    requires
        m.wf(),
        id.generation == m.next_generation,
        id.index < u32::MAX,
        !m.nodes.dom().contains(id.index as int),
        m.compact() ==> id.index == m.slots,
        !m.compact() ==> id.index < m.slots,
    ensures
        !m.issued.contains(id),
        m.with_node(id, node).wf(),
        m.with_node(id, node).has_node(id),
        forall|x: NodeId|
            m.issued.contains(x) && !m.has_node(x) ==> !(#[trigger] m.with_node(id, node).has_node(
                x,
            )),
        forall|x: NodeId| m.has_node(x) ==> #[trigger] m.with_node(id, node).has_node(x),
        forall|x: NodeId| m.issued.contains(x) ==> #[trigger] m.with_node(id, node).issued.contains(x),
{
    let r = m.with_node(id, node);
    assert forall|i: int| #[trigger] r.nodes.dom().contains(i) implies r.issued.contains(
        NodeId { index: i as u32, generation: r.generations[i] },
    ) by {
        if i != id.index {
            assert(m.nodes.dom().contains(i));
        }
    }
}

/// Removing a node takes every edge at it along, keeps every other edge as
/// it was, leaves nothing selected or edited that is gone, and keeps the
/// graph consistent. The identity removed is dead afterwards, every other
/// identity is what it was, and no identity is forgotten.
pub proof fn lemma_removal_cascade(m: GraphModel, id: NodeId)
    requires
        m.wf(),
    ensures
        m.without_node(id).wf(),
        !m.without_node(id).has_node(id),
        m.without_node(id).issued == m.issued,
        m.without_node(id).next_generation == m.next_generation,
        m.has_node(id) ==> forall|e: int| #[trigger]
            m.without_node(id).edges.dom().contains(e) ==> !m.without_node(id).edges[e].touches(
                id.index,
            ),
        forall|e: int|
            m.edges.dom().contains(e) && !m.edges[e].touches(id.index) ==> #[trigger] m.without_node(
                id,
            ).edges.dom().contains(e) && m.without_node(id).edges[e] == m.edges[e],
        forall|e: int| #[trigger]
            m.without_node(id).edges.dom().contains(e) ==> m.edges.dom().contains(e),
        forall|other: NodeId|
            other != id ==> (#[trigger] m.without_node(id).has_node(other) <==> m.has_node(other)),
        m.without_node(id).selected != Some(id),
        m.without_node(id).editing != Some(id),
        !m.without_node(id).selection.contains(id),
        forall|other: NodeId|
            other != id ==> (#[trigger] m.without_node(id).selection.contains(other)
                <==> m.selection.contains(other)),
{
    let r = m.without_node(id);
    if m.has_node(id) {
        assert(r.edges.dom().subset_of(m.edges.dom()));
        vstd::set_lib::lemma_len_subset(r.edges.dom(), m.edges.dom());
        assert forall|e: int| #[trigger] r.edges.dom().contains(e) implies r.nodes.dom().contains(
            r.edges[e].source as int,
        ) && r.nodes.dom().contains(r.edges[e].target as int) by {
            assert(m.edges.dom().contains(e));
        }
        assert forall|i: int| #[trigger] r.nodes.dom().contains(i) implies r.issued.contains(
            NodeId { index: i as u32, generation: r.generations[i] },
        ) by {
            assert(m.nodes.dom().contains(i));
        }
    }
}

} // verus!
