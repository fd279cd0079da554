//! The graph of the diagram: nodes, edges and what is selected.

pub mod edge;
pub mod model;
pub mod node;
pub mod store;
pub mod temp_edge;

use vstd::prelude::*;
use petgraph::stable_graph::StableGraph;
use crate::graph::edge::Edge;
use crate::graph::edge::EdgeId;
use crate::graph::edge::EdgeType;
use crate::graph::edge::Link;
use crate::graph::model::lemma_added_identity_is_new;
use crate::graph::model::lemma_removal_cascade;
use crate::graph::model::GraphError;
use crate::graph::model::GraphModel;
use crate::graph::node::Node;
use crate::graph::node::NodeId;
use crate::graph::node::Stamped;
use crate::graph::store::store_add_edge;
use crate::graph::store::store_add_node;
use crate::graph::store::store_clear;
use crate::graph::store::store_edge_count;
use crate::graph::store::store_edge_list;
use crate::graph::store::store_edges;
use crate::graph::store::store_new;
use crate::graph::store::store_node;
use crate::graph::store::store_node_count;
use crate::graph::store::store_node_ids;
use crate::graph::store::store_node_mut;
use crate::graph::store::store_node_slots;
use crate::graph::store::store_nodes;
use crate::graph::store::store_remove_node;
use crate::graph::temp_edge::TempEdge;

verus! {

/// The node and edge tables of a diagram, with the selection, the node being
/// edited, the edge in the making and the kind of edge that is drawn next.
///
/// Every graph that this module hands out is consistent (`GraphModel::wf`),
/// and every operation keeps it so.
pub struct Graph {
    graph: StableGraph<Stamped, EdgeType>,
    next_generation: u64,
    issued: Ghost<Set<NodeId>>,
    selected_node: Option<NodeId>,
    editing_node: Option<NodeId>,
    temp_edge: Option<TempEdge>,
    edge_type: EdgeType,
    selection: Vec<NodeId>,
}

/// The nodes of a node table, without their generations.
pub open spec fn table_nodes(table: Map<int, Stamped>) -> Map<int, Node> {
    Map::new(|i: int| table.dom().contains(i), |i: int| table[i].node)
}

/// The generations of the nodes of a node table.
pub open spec fn table_generations(table: Map<int, Stamped>) -> Map<int, u64> {
    Map::new(|i: int| table.dom().contains(i), |i: int| table[i].generation)
}

/// Replacing a node in its slot, at its generation, changes that node and
/// nothing else of the tables.
proof fn lemma_table_insert(table: Map<int, Stamped>, i: int, after: Stamped)
    requires
        table.dom().contains(i),
        after.generation == table[i].generation,
    ensures
        table_nodes(table.insert(i, after)) == table_nodes(table).insert(i, after.node),
        table_generations(table.insert(i, after)) == table_generations(table),
{
    assert(table_nodes(table.insert(i, after)) =~= table_nodes(table).insert(i, after.node));
    assert(table_generations(table.insert(i, after)) =~= table_generations(table));
}

impl View for Graph {
    type V = GraphModel;

    closed spec fn view(&self) -> GraphModel {
        GraphModel {
            nodes: table_nodes(store_nodes(self.graph)),
            generations: table_generations(store_nodes(self.graph)),
            edges: store_edges(self.graph),
            slots: store_node_slots(self.graph),
            issued: self.issued@,
            next_generation: self.next_generation as nat,
            selected: self.selected_node,
            editing: self.editing_node,
            temp_edge: self.temp_edge,
            edge_type: self.edge_type,
            selection: self.selection@.to_set(),
        }
    }
}

impl Default for Graph {
    /// The empty graph.
    fn default() -> (g: Graph)
        ensures
            g@ == GraphModel::empty(),
            g@.wf(),
    {
        Graph::new()
    }
}

impl Graph {
    /// A graph without nodes or edges, nothing selected, edges drawn as
    /// lines.
    pub fn new() -> (g: Graph)
        ensures
            g@ == GraphModel::empty(),
            g@.wf(),
    {
        Graph::starting_at(0)
    }

    /// An empty graph whose first node gets the generation `first`. A graph
    /// that takes the place of another starts at the generation that the
    /// other has reached, so that no identity of the other is one of its
    /// own.
    pub fn starting_at(first: u64) -> (g: Graph)
        ensures
            g@ == (GraphModel { next_generation: first as nat, ..GraphModel::empty() }),
            g@.wf(),
    {
        let graph = store_new();
        let g = Graph {
            graph,
            next_generation: first,
            issued: Ghost(Set::empty()),
            selected_node: None,
            editing_node: None,
            temp_edge: None,
            edge_type: EdgeType::Line,
            selection: Vec::new(),
        };
        assert(g@.nodes =~= Map::<int, Node>::empty());
        assert(g@.generations =~= Map::<int, u64>::empty());
        assert(g@.edges =~= Map::<int, Link>::empty());
        assert(g@.selection =~= Set::<NodeId>::empty());
        g
    }

    /// The generation that the next node gets.
    pub fn next_generation(&self) -> (generation: u64)
        ensures
            generation == self@.next_generation,
    {
        self.next_generation
    }

    /// The number of nodes.
    pub fn node_count(&self) -> (n: usize)
        ensures
            n == self@.nodes.dom().len(),
    {
        assert(self@.nodes.dom() =~= store_nodes(self.graph).dom());
        store_node_count(&self.graph)
    }

    /// The number of edges.
    pub fn edge_count(&self) -> (n: usize)
        ensures
            n == self@.edges.dom().len(),
    {
        store_edge_count(&self.graph)
    }

    /// Whether a node can be added: the node table has a free index, and
    /// there is a generation left to give.
    pub open spec fn has_room(&self) -> bool {
        self@.nodes.dom().len() < u32::MAX && self@.next_generation < u64::MAX
    }

    /// Adds a node and returns its identity. The identity was never handed
    /// out by this graph before: its generation is the number of nodes ever
    /// added. In a compact graph its index is the number of slots.
    pub fn add_node(&mut self, node: Node) -> (id: NodeId)
        requires
            old(self).has_room(),
        ensures
            id.index < u32::MAX,
            id.generation == old(self)@.next_generation,
            !old(self)@.nodes.dom().contains(id.index as int),
            old(self)@.compact() ==> id.index == old(self)@.slots,
            final(self)@ == old(self)@.with_node(id, node),
            old(self)@.wf() ==> !old(self)@.issued.contains(id) && final(self)@.wf(),
    {
        let generation = self.next_generation;
        assert(self@.nodes.dom() =~= store_nodes(self.graph).dom());
        let index = store_add_node(&mut self.graph, Stamped { generation, node });
        let id = NodeId { index, generation };
        self.next_generation = generation + 1;
        self.issued = Ghost(self.issued@.insert(id));
        proof {
            assert(self@.nodes =~= old(self)@.with_node(id, node).nodes);
            assert(self@.generations =~= old(self)@.with_node(id, node).generations);
            if old(self)@.wf() {
                lemma_added_identity_is_new(old(self)@, id, node);
            }
        }
        id
    }

    /// Adds a node unless the graph has no room for one: the node table
    /// holds at most `u32::MAX` nodes, and a graph hands out at most
    /// `u64::MAX` identities.
    pub fn try_add_node(&mut self, node: Node) -> (r: Option<NodeId>)
        ensures
            r is None <==> !old(self).has_room(),
            r is None ==> final(self)@ == old(self)@,
            r matches Some(id) ==> {
                &&& id.index < u32::MAX
                &&& id.generation == old(self)@.next_generation
                &&& !old(self)@.nodes.dom().contains(id.index as int)
                &&& old(self)@.compact() ==> id.index == old(self)@.slots
                &&& final(self)@ == old(self)@.with_node(id, node)
                &&& old(self)@.wf() ==> !old(self)@.issued.contains(id)
            },
            old(self)@.wf() ==> final(self)@.wf(),
    {
        if self.node_count() >= u32::MAX as usize || self.next_generation == u64::MAX {
            None
        } else {
            Some(self.add_node(node))
        }
    }

    /// Whether the graph holds a node of this identity. It holds none where
    /// the slot is vacant, and none where the slot has a node of another
    /// generation.
    pub fn contains_node(&self, id: NodeId) -> (held: bool)
        ensures
            held == self@.has_node(id),
    {
        match store_node(&self.graph, id.index) {
            Some(stamped) => stamped.generation == id.generation,
            None => false,
        }
    }

    /// The identity of the node in a slot of the node table, if the slot is
    /// in use.
    pub fn node_at_index(&self, index: u32) -> (r: Option<NodeId>)
        ensures
            r == (if self@.nodes.dom().contains(index as int) {
                Some(self@.handle_at(index))
            } else {
                None
            }),
            r matches Some(id) ==> self@.has_node(id),
    {
        match store_node(&self.graph, index) {
            Some(stamped) => Some(NodeId { index, generation: stamped.generation }),
            None => None,
        }
    }

    /// The node of this identity, if the graph holds one.
    pub fn get_node(&self, id: NodeId) -> (r: Option<&Node>)
        ensures
            r matches Some(n) ==> self@.has_node(id) && *n == self@.nodes[id.index as int],
            r is None ==> !self@.has_node(id),
    {
        match store_node(&self.graph, id.index) {
            Some(stamped) => if stamped.generation == id.generation {
                Some(&stamped.node)
            } else {
                None
            },
            None => None,
        }
    }

    /// The node of this identity, if the graph holds one, to be changed in
    /// place. Whatever is written to it, the rest of the graph stays as it
    /// is.
    pub fn get_node_mut(&mut self, id: NodeId) -> (r: Option<&mut Node>)
        ensures
            r matches Some(n) ==> old(self)@.has_node(id) && *n == old(self)@.nodes[id.index as int]
                && final(self)@ == old(self)@.with_node_changed(id, *final(n)),
            r is None ==> !old(self)@.has_node(id) && final(self)@ == old(self)@,
            old(self)@.wf() ==> final(self)@.wf(),
    {
        if !self.contains_node(id) {
            return None;
        }
        let ghost table = store_nodes(self.graph);
        match store_node_mut(&mut self.graph, id.index) {
            Some(stamped) => {
                let ghost generation = stamped.generation;
                let node = &mut stamped.node;
                proof {
                    let after = Stamped { generation, node: *final(node) };
                    lemma_table_insert(table, id.index as int, after);
                }
                Some(node)
            },
            None => None,
        }
    }

    pub fn get_selected_node(&self) -> (r: Option<NodeId>)
        ensures
            r == self@.selected,
    {
        self.selected_node
    }

    /// Selects a node, or nothing. A node that the graph does not hold is
    /// not selected, and nothing changes. An edit of another node ends.
    pub fn set_selected_node(&mut self, node_index: Option<NodeId>)
        ensures
            final(self)@ == old(self)@.with_selected(node_index),
            old(self)@.wf() ==> final(self)@.wf(),
    {
        match node_index {
            Some(id) => {
                if self.contains_node(id) {
                    let keeps: bool = match self.editing_node {
                        Some(e) => e.index == id.index && e.generation == id.generation,
                        None => false,
                    };
                    self.selected_node = node_index;
                    if !keeps {
                        self.editing_node = None;
                    }
                }
            },
            None => {
                self.selected_node = None;
                self.editing_node = None;
            },
        }
    }

    pub fn get_editing_node(&self) -> (r: Option<NodeId>)
        ensures
            r == self@.editing,
    {
        self.editing_node
    }

    /// Starts the edit of a node, which selects it, or ends the edit. A node
    /// that the graph does not hold is not edited, and nothing changes.
    pub fn set_editing_node(&mut self, node_index: Option<NodeId>)
        ensures
            final(self)@ == old(self)@.with_editing(node_index),
            old(self)@.wf() ==> final(self)@.wf(),
    {
        match node_index {
            Some(id) => {
                if self.contains_node(id) {
                    self.selected_node = node_index;
                    self.editing_node = node_index;
                }
            },
            None => {
                self.editing_node = None;
            },
        }
    }

    /// Of a list of identities, those of nodes of the graph.
    fn live_ones(&self, ids: &Vec<NodeId>) -> (kept: Vec<NodeId>)
        ensures
            kept@.to_set() == self@.live(ids@.to_set()),
    {
        let mut kept: Vec<NodeId> = Vec::new();
        let mut i: usize = 0;
        while i < ids.len()
            invariant
                i <= ids.len(),
                forall|x: NodeId|
                    kept@.contains(x) <==> self@.has_node(x) && exists|j: int|
                        0 <= j < i && ids@[j] == x,
            decreases ids.len() - i,
        {
            let x = ids[i];
            let ghost before = kept@;
            if self.contains_node(x) {
                kept.push(x);
                assert(kept@.last() == x);
                assert forall|y: NodeId| kept@.contains(y) <==> self@.has_node(y) && exists|j: int|
                    0 <= j < i + 1 && ids@[j] == y by {
                    if kept@.contains(y) {
                        let k = choose|k: int| 0 <= k < kept@.len() && kept@[k] == y;
                        if k < before.len() {
                            assert(before[k] == y);
                            assert(before.contains(y));
                        } else {
                            assert(ids@[i as int] == y);
                        }
                    }
                    if self@.has_node(y) && exists|j: int| 0 <= j < i + 1 && ids@[j] == y {
                        let j = choose|j: int| 0 <= j < i + 1 && ids@[j] == y;
                        if j < i {
                            assert(before.contains(y));
                            let k = choose|k: int| 0 <= k < before.len() && before[k] == y;
                            assert(kept@[k] == y);
                        } else {
                            assert(kept@[kept@.len() - 1] == y);
                        }
                    }
                }
            }
            i += 1;
        }
        proof {
            let want = self@.live(ids@.to_set());
            assert forall|x: NodeId| kept@.to_set().contains(x) <==> want.contains(x) by {
                if ids@.contains(x) {
                    let j = choose|j: int| 0 <= j < ids@.len() && ids@[j] == x;
                    assert(0 <= j < i && ids@[j] == x);
                }
            }
            assert(kept@.to_set() =~= want);
        }
        kept
    }

    /// Removes a node with every edge that starts or ends at it. Where the
    /// node was selected, edited or in the rectangle selection, it no longer
    /// is. Its identity is dead from then on. Without such a node, as where
    /// the identity is that of a node removed before, nothing changes.
    pub fn remove_node(&mut self, node_index: NodeId)
        ensures
            final(self)@ == old(self)@.without_node(node_index),
            old(self)@.wf() ==> final(self)@.wf(),
    {
        proof {
            if self@.wf() {
                lemma_removal_cascade(self@, node_index);
            }
        }
        if !self.contains_node(node_index) {
            return ;
        }
        let removed = store_remove_node(&mut self.graph, node_index.index);
        let was_selected: bool = match self.selected_node {
            Some(s) => s.index == node_index.index && s.generation == node_index.generation,
            None => false,
        };
        if was_selected {
            self.selected_node = None;
        }
        let was_edited: bool = match self.editing_node {
            Some(e) => e.index == node_index.index && e.generation == node_index.generation,
            None => false,
        };
        if was_edited {
            self.editing_node = None;
        }
        let kept = self.live_ones(&self.selection);
        self.selection = kept;
        proof {
            let want = old(self)@.without_node(node_index);
            assert(self@.nodes =~= want.nodes);
            assert(self@.generations =~= want.generations);
            assert(self@.selection =~= want.selection);
        }
    }

    /// Adds an edge. It is refused, and nothing changes, where the source or
    /// the target is not a node of the graph, or where the edge table is
    /// full. An edge from a node to itself is added like any other, and so
    /// is a second edge between the same two nodes.
    pub fn add_edge(&mut self, edge: Edge) -> (r: Result<EdgeId, GraphError>)
        ensures
            match r {
                Ok(id) => old(self)@.edge_refusal(edge) is None && id.index < u32::MAX && !old(
                    self,
                )@.edges.dom().contains(id.index as int) && final(self)@ == old(self)@.with_edge(
                    id,
                    edge,
                ),
                Err(e) => old(self)@.edge_refusal(edge) == Some(e) && final(self)@ == old(self)@,
            },
            old(self)@.wf() ==> final(self)@.wf(),
    {
        if !self.contains_node(edge.source) || !self.contains_node(edge.target) {
            return Err(GraphError::MissingEndpoint);
        }
        if store_edge_count(&self.graph) >= u32::MAX as usize {
            return Err(GraphError::Full);
        }
        let id = store_add_edge(&mut self.graph, edge.to_link());
        Ok(id)
    }

    /// Sets or clears the edge in the making.
    pub fn set_temp_edge(&mut self, temp_edge: Option<TempEdge>)
        ensures
            final(self)@ == old(self)@.with_temp_edge(temp_edge),
    {
        self.temp_edge = temp_edge;
    }

    pub fn get_temp_edge(&self) -> (r: Option<TempEdge>)
        ensures
            r == self@.temp_edge,
    {
        self.temp_edge
    }

    /// The kind of edge that is drawn next.
    pub fn edge_type(&self) -> (t: EdgeType)
        ensures
            t == self@.edge_type,
    {
        self.edge_type
    }

    pub fn set_edge_type(&mut self, edge_type: EdgeType)
        ensures
            final(self)@ == old(self)@.with_edge_type(edge_type),
    {
        self.edge_type = edge_type;
    }

    /// Whether the node is in the rectangle selection.
    pub fn is_selected(&self, id: NodeId) -> (picked: bool)
        ensures
            picked == self@.selection.contains(id),
    {
        let mut i: usize = 0;
        while i < self.selection.len()
            invariant
                i <= self.selection.len(),
                forall|j: int| 0 <= j < i ==> self.selection@[j] != id,
            decreases self.selection.len() - i,
        {
            let x = self.selection[i];
            if x.index == id.index && x.generation == id.generation {
                assert(self.selection@[i as int] == id);
                return true;
            }
            i += 1;
        }
        false
    }

    /// The rectangle selection, in no particular order.
    pub fn selection(&self) -> (picked: &Vec<NodeId>)
        ensures
            picked@.to_set() == self@.selection,
    {
        &self.selection
    }

    /// Replaces the rectangle selection by those of the given nodes that the
    /// graph holds.
    pub fn set_selection(&mut self, picks: Vec<NodeId>)
        ensures
            final(self)@ == old(self)@.with_selection(picks@.to_set()),
            old(self)@.wf() ==> final(self)@.wf(),
    {
        let kept = self.live_ones(&picks);
        self.selection = kept;
    }

    /// The identities of the nodes, from the smallest index to the largest.
    pub fn node_indices(&self) -> (ids: Vec<NodeId>)
        ensures
            ids@.len() == self@.nodes.dom().len(),
            forall|i: int, j: int| 0 <= i < j < ids@.len() ==> ids@[i].index < ids@[j].index,
            forall|i: int| 0 <= i < ids@.len() ==> self@.has_node(#[trigger] ids@[i]),
            forall|id: NodeId| self@.has_node(id) ==> ids@.contains(id),
            forall|k: int|
                self@.nodes.dom().contains(k) ==> exists|i: int|
                    0 <= i < ids@.len() && ids@[i].index == k,
    {
        let slots = store_node_ids(&self.graph);
        let mut ids: Vec<NodeId> = Vec::new();
        let mut i: usize = 0;
        assert(self@.nodes.dom() =~= store_nodes(self.graph).dom());
        while i < slots.len()
            invariant
                i <= slots.len(),
                ids@.len() == i,
                forall|k: int|
                    0 <= k < slots@.len() ==> store_nodes(self.graph).dom().contains(
                        slots@[k] as int,
                    ),
                forall|k: int|
                    0 <= k < i ==> (#[trigger] ids@[k]).index == slots@[k] && self@.has_node(ids@[k]),
            decreases slots.len() - i,
        {
            let index = slots[i];
            assert(store_nodes(self.graph).dom().contains(slots@[i as int] as int));
            match store_node(&self.graph, index) {
                Some(stamped) => {
                    ids.push(NodeId { index, generation: stamped.generation });
                },
                None => {},
            }
            i += 1;
        }
        proof {
            assert forall|a: int, b: int| 0 <= a < b < ids@.len() implies ids@[a].index
                < ids@[b].index by {
                assert(ids@[a].index == slots@[a]);
                assert(ids@[b].index == slots@[b]);
            }
            assert forall|k: int| self@.nodes.dom().contains(k) implies exists|a: int|
                0 <= a < ids@.len() && ids@[a].index == k by {
                let a = choose|a: int| 0 <= a < slots@.len() && slots@[a] == k;
                assert(ids@[a].index == k);
            }
            assert forall|id: NodeId| self@.has_node(id) implies ids@.contains(id) by {
                let a = choose|a: int| 0 <= a < ids@.len() && ids@[a].index == id.index as int;
                assert(self@.has_node(ids@[a]));
                assert(ids@[a] == id);
            }
        }
        ids
    }

    /// The edge between two slots, as an edge between the nodes there.
    fn edge_at(&self, link: Link) -> (edge: Edge)
        ensures
            edge == self@.edge_of(link),
    {
        let source = match store_node(&self.graph, link.source) {
            Some(stamped) => stamped.generation,
            None => 0,
        };
        let target = match store_node(&self.graph, link.target) {
            Some(stamped) => stamped.generation,
            None => 0,
        };
        Edge {
            source: NodeId { index: link.source, generation: source },
            target: NodeId { index: link.target, generation: target },
            edge_type: link.edge_type,
        }
    }

    /// The edges with their identities, from the smallest index to the
    /// largest.
    pub fn edge_list(&self) -> (list: Vec<(EdgeId, Edge)>)
        ensures
            list@.len() == self@.edges.dom().len(),
            forall|i: int, j: int| 0 <= i < j < list@.len() ==> list@[i].0.index < list@[j].0.index,
            forall|i: int|
                0 <= i < list@.len() ==> self@.edges.dom().contains(
                    (#[trigger] list@[i]).0.index as int,
                ) && list@[i].1 == self@.edge_of(self@.edges[list@[i].0.index as int]),
            forall|k: int|
                self@.edges.dom().contains(k) ==> exists|i: int|
                    0 <= i < list@.len() && list@[i].0.index == k,
    {
        let links = store_edge_list(&self.graph);
        let mut list: Vec<(EdgeId, Edge)> = Vec::new();
        let mut i: usize = 0;
        while i < links.len()
            invariant
                i <= links.len(),
                list@.len() == i,
                forall|k: int|
                    0 <= k < i ==> (#[trigger] list@[k]).0 == links@[k].0 && list@[k].1
                        == self@.edge_of(links@[k].1),
            decreases links.len() - i,
        {
            let (id, link) = links[i];
            let edge = self.edge_at(link);
            list.push((id, edge));
            i += 1;
        }
        proof {
            assert forall|a: int, b: int| 0 <= a < b < list@.len() implies list@[a].0.index
                < list@[b].0.index by {
                assert(list@[a].0 == links@[a].0);
                assert(list@[b].0 == links@[b].0);
            }
            assert forall|k: int| self@.edges.dom().contains(k) implies exists|a: int|
                0 <= a < list@.len() && list@[a].0.index == k by {
                let a = choose|a: int| 0 <= a < links@.len() && links@[a].0.index == k;
                assert(list@[a].0 == links@[a].0);
            }
            assert forall|a: int| 0 <= a < list@.len() implies self@.edges.dom().contains(
                (#[trigger] list@[a]).0.index as int,
            ) && list@[a].1 == self@.edge_of(self@.edges[list@[a].0.index as int]) by {
                assert(list@[a].0 == links@[a].0);
            }
        }
        list
    }

    /// Empties the graph: no nodes, no edges, nothing selected or edited,
    /// no edge in the making. The kind of edge to draw next stays, and so
    /// does the count of generations: no identity from before comes back.
    pub fn reset(&mut self)
        ensures
            final(self)@ == old(self)@.cleared(),
            old(self)@.wf() ==> final(self)@.wf(),
    {
        store_clear(&mut self.graph);
        self.selected_node = None;
        self.editing_node = None;
        self.temp_edge = None;
        self.selection = Vec::new();
        assert(self@.nodes =~= Map::<int, Node>::empty());
        assert(self@.generations =~= Map::<int, u64>::empty());
        assert(self@.edges =~= Map::<int, Link>::empty());
        assert(self@.selection =~= Set::<NodeId>::empty());
    }
}

} // verus!
