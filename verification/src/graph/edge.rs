//! Edges of the diagram.

use vstd::prelude::*;
use crate::graph::node::NodeId;

verus! {

/// How an edge is drawn.
#[derive(Clone, Copy, Debug, PartialEq, Eq, Structural)]
pub enum EdgeType {
    /// A straight segment.
    Line,
    /// A cubic curve.
    Bezier,
}

/// The identity of an edge: its index in the edge table of the graph.
#[derive(Clone, Copy, Debug, PartialEq, Eq, Structural)]
pub struct EdgeId {
    pub index: u32,
}

/// A directed connection between two nodes.
#[derive(Clone, Copy, Debug, PartialEq, Eq, Structural)]
pub struct Edge {
    pub source: NodeId,
    pub target: NodeId,
    pub edge_type: EdgeType,
}

/// An edge as the edge table holds it: between two slots of the node table.
#[derive(Clone, Copy, Debug, PartialEq, Eq, Structural)]
pub struct Link {
    pub source: u32,
    pub target: u32,
    pub edge_type: EdgeType,
}

impl Edge {
    pub fn new(source: NodeId, target: NodeId, edge_type: EdgeType) -> (e: Edge)
        ensures
            e == (Edge { source, target, edge_type }),
    {
        Edge { source, target, edge_type }
    }

    /// The slots that the edge joins.
    pub open spec fn link(self) -> Link {
        Link { source: self.source.index, target: self.target.index, edge_type: self.edge_type }
    }

    pub fn to_link(&self) -> (l: Link)
        ensures
            l == self.link(),
    {
        Link { source: self.source.index, target: self.target.index, edge_type: self.edge_type }
    }
}

impl Link {
    /// The edge starts or ends at the slot.
    pub open spec fn touches(self, index: u32) -> bool {
        self.source == index || self.target == index
    }
}

/// An edge table without the edges that start or end at a slot. The edges
/// that stay keep their indices.
pub open spec fn edges_without(edges: Map<int, Link>, index: u32) -> Map<int, Link> {
    Map::new(|e: int| edges.dom().contains(e) && !edges[e].touches(index), |e: int| edges[e])
}

} // verus!
