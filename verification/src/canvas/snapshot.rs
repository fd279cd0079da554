//! What the canvas shows after a frame, for whatever draws it.

use vstd::prelude::*;
use crate::canvas::data::CanvasWidget;
use crate::canvas::model::CanvasModel;
use crate::edge_path::edge_path_in;
use crate::edge_path::path_in;
use crate::edge_path::preview_in;
use crate::edge_path::preview_path;
use crate::edge_path::EdgePath;
use crate::geometry::Point;
use crate::geometry::Rect;
use crate::graph::edge::Edge;
use crate::graph::edge::EdgeId;
use crate::graph::node::Node;
use crate::graph::node::NodeId;
use crate::graph::temp_edge::TempEdge;
use crate::input::state_manager::GestureState;

verus! {

/// A node as it is to be drawn.
#[derive(Debug)]
pub struct NodeEntry {
    pub id: NodeId,
    pub node: Node,
    /// The node is the one picked by a click.
    pub selected: bool,
    /// The label of the node is being edited.
    pub editing: bool,
    /// The node is in the rectangle selection.
    pub in_selection: bool,
}

/// An edge as it is to be drawn.
#[derive(Clone, Copy, Debug)]
pub struct EdgeEntry {
    pub id: EdgeId,
    pub edge: Edge,
    /// The path between the anchors of the two nodes, in canvas space;
    /// `None` where the box of an endpoint has no storable far corner.
    pub path: Option<EdgePath>,
}

/// The canvas at one moment. Positions of nodes and paths are in canvas
/// space, the rectangle is in screen space; `scale` and `translation` carry
/// the one to the other.
#[derive(Debug)]
pub struct Snapshot {
    /// The nodes, from the smallest index to the largest.
    pub nodes: Vec<NodeEntry>,
    /// The edges, from the smallest index to the largest.
    pub edges: Vec<EdgeEntry>,
    /// The scale of the view in millionths.
    pub scale: u32,
    pub translation: Point,
    pub state: GestureState,
    /// The edge in the making.
    pub temp_edge: Option<TempEdge>,
    /// The path of the edge in the making.
    pub temp_path: Option<EdgePath>,
    /// The rectangle of the selection gesture in progress.
    pub drag_rect: Option<Rect>,
}

/// The list shows each node of the canvas once, in the order of the indices,
/// as the graph holds it.
pub open spec fn shows_nodes(entries: Seq<NodeEntry>, m: CanvasModel) -> bool {
    &&& entries.len() == m.graph.nodes.dom().len()
    &&& forall|i: int, j: int|
        0 <= i < j < entries.len() ==> entries[i].id.index < entries[j].id.index
    &&& forall|i: int|
        0 <= i < entries.len() ==> {
            let entry = #[trigger] entries[i];
            &&& m.graph.has_node(entry.id)
            &&& entry.node == m.graph.nodes[entry.id.index as int]
            &&& entry.selected == (m.graph.selected == Some(entry.id))
            &&& entry.editing == (m.graph.editing == Some(entry.id))
            &&& entry.in_selection == m.graph.selection.contains(entry.id)
        }
    &&& forall|id: NodeId|
        m.graph.has_node(id) ==> exists|i: int|
            0 <= i < entries.len() && (#[trigger] entries[i]).id == id
}

/// The list shows each edge of the canvas once, in the order of the indices,
/// with its path.
pub open spec fn shows_edges(entries: Seq<EdgeEntry>, m: CanvasModel) -> bool {
    &&& entries.len() == m.graph.edges.dom().len()
    &&& forall|i: int, j: int|
        0 <= i < j < entries.len() ==> entries[i].id.index < entries[j].id.index
    &&& forall|i: int|
        0 <= i < entries.len() ==> {
            let entry = #[trigger] entries[i];
            &&& m.graph.edges.dom().contains(entry.id.index as int)
            &&& entry.edge == m.graph.edge_of(m.graph.edges[entry.id.index as int])
            &&& entry.path == path_in(m.graph, entry.edge)
        }
    &&& forall|k: int|
        m.graph.edges.dom().contains(k) ==> exists|i: int|
            0 <= i < entries.len() && (#[trigger] entries[i]).id.index == k
}

impl Snapshot {
    /// The snapshot shows the canvas.
    pub open spec fn shows(self, m: CanvasModel) -> bool {
        &&& shows_nodes(self.nodes@, m)
        &&& shows_edges(self.edges@, m)
        &&& self.scale == m.view.scale
        &&& self.translation.x == m.view.dx
        &&& self.translation.y == m.view.dy
        &&& self.state == m.state
        &&& self.temp_edge == m.graph.temp_edge
        &&& self.temp_path == (match m.graph.temp_edge {
            Some(temp) => preview_in(m.graph, temp),
            None => None,
        })
        &&& self.drag_rect == (match m.range {
            Some(range) => Some(range.rect()),
            None => None,
        })
    }
}

impl CanvasWidget {
    /// The nodes of the canvas as they are to be drawn.
    pub fn node_entries(&self) -> (entries: Vec<NodeEntry>)
        ensures
            shows_nodes(entries@, self@),
    {
        let ids = self.graph.node_indices();
        let picked = self.graph.get_selected_node();
        let edited = self.graph.get_editing_node();
        let mut entries: Vec<NodeEntry> = Vec::new();
        let mut i: usize = 0;
        while i < ids.len()
            invariant
                i <= ids.len(),
                i == entries@.len(),
                picked == self@.graph.selected,
                edited == self@.graph.editing,
                ids@.len() == self@.graph.nodes.dom().len(),
                forall|k: int| 0 <= k < ids@.len() ==> self@.graph.has_node(#[trigger] ids@[k]),
                forall|k: int|
                    0 <= k < i ==> {
                        let entry = #[trigger] entries@[k];
                        &&& entry.id == ids@[k]
                        &&& entry.node == self@.graph.nodes[entry.id.index as int]
                        &&& entry.selected == (self@.graph.selected == Some(entry.id))
                        &&& entry.editing == (self@.graph.editing == Some(entry.id))
                        &&& entry.in_selection == self@.graph.selection.contains(entry.id)
                    },
            decreases ids.len() - i,
        {
            let id = ids[i];
            assert(self@.graph.has_node(ids@[i as int]));
            match self.graph.get_node(id) {
                Some(node) => {
                    let selected: bool = match picked {
                        Some(p) => p.index == id.index && p.generation == id.generation,
                        None => false,
                    };
                    let editing: bool = match edited {
                        Some(e) => e.index == id.index && e.generation == id.generation,
                        None => false,
                    };
                    let in_selection = self.graph.is_selected(id);
                    entries.push(
                        NodeEntry { id, node: node.clone(), selected, editing, in_selection },
                    );
                },
                None => {},
            }
            i += 1;
        }
        proof {
            assert forall|id: NodeId| self@.graph.has_node(id) implies exists|k: int|
                0 <= k < entries@.len() && (#[trigger] entries@[k]).id == id by {
                assert(ids@.contains(id));
                let k = choose|k: int| 0 <= k < ids@.len() && ids@[k] == id;
                assert(entries@[k].id == id);
            }
            assert forall|a: int, b: int| 0 <= a < b < entries@.len() implies entries@[a].id.index
                < entries@[b].id.index by {
                assert(entries@[a].id == ids@[a]);
                assert(entries@[b].id == ids@[b]);
            }
        }
        entries
    }

    /// The edges of the canvas as they are to be drawn.
    pub fn edge_entries(&self) -> (entries: Vec<EdgeEntry>)
        ensures
            shows_edges(entries@, self@),
    {
        let list = self.graph.edge_list();
        let mut entries: Vec<EdgeEntry> = Vec::new();
        let mut i: usize = 0;
        while i < list.len()
            invariant
                i <= list.len(),
                i == entries@.len(),
                list@.len() == self@.graph.edges.dom().len(),
                forall|k: int|
                    0 <= k < list@.len() ==> self@.graph.edges.dom().contains(
                        (#[trigger] list@[k]).0.index as int,
                    ) && self@.graph.edge_of(self@.graph.edges[list@[k].0.index as int])
                        == list@[k].1,
                forall|k: int|
                    0 <= k < i ==> {
                        let entry = #[trigger] entries@[k];
                        &&& entry.id == list@[k].0
                        &&& entry.edge == list@[k].1
                        &&& entry.path == path_in(self@.graph, entry.edge)
                    },
            decreases list.len() - i,
        {
            let (id, edge) = list[i];
            let path = edge_path_in(&self.graph, &edge);
            entries.push(EdgeEntry { id, edge, path });
            i += 1;
        }
        proof {
            assert forall|k: int| self@.graph.edges.dom().contains(k) implies exists|i: int|
                0 <= i < entries@.len() && (#[trigger] entries@[i]).id.index == k by {
                let j = choose|j: int| 0 <= j < list@.len() && list@[j].0.index == k;
                assert(entries@[j].id == list@[j].0);
            }
            assert forall|a: int, b: int| 0 <= a < b < entries@.len() implies entries@[a].id.index
                < entries@[b].id.index by {
                assert(entries@[a].id == list@[a].0);
                assert(entries@[b].id == list@[b].0);
            }
            assert forall|k: int| 0 <= k < entries@.len() implies ({
                let entry = #[trigger] entries@[k];
                &&& self@.graph.edges.dom().contains(entry.id.index as int)
                &&& entry.edge == self@.graph.edge_of(self@.graph.edges[entry.id.index as int])
                &&& entry.path == path_in(self@.graph, entry.edge)
            }) by {
                assert(entries@[k].id == list@[k].0);
            }
        }
        entries
    }

    /// What the canvas shows: every node and every edge once, the view, the
    /// gesture state, the edge in the making and the selection rectangle.
    /// Taking it changes nothing.
    pub fn snapshot(&self) -> (shot: Snapshot)
        ensures
            shot.shows(self@),
    {
        let nodes = self.node_entries();
        let edges = self.edge_entries();
        let temp_edge = self.graph.get_temp_edge();
        let temp_path = match temp_edge {
            Some(temp) => preview_path(&self.graph, &temp),
            None => None,
        };
        let drag_rect = match self.drag_select_range {
            Some(range) => Some(range.to_rect()),
            None => None,
        };
        Snapshot {
            nodes,
            edges,
            scale: self.transform.scale(),
            translation: self.transform.translation(),
            state: self.input_manager.current_state,
            temp_edge,
            temp_path,
            drag_rect,
        }
    }
}

} // verus!
