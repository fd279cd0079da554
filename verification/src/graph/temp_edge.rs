//! The edge that a link gesture is drawing.

use vstd::prelude::*;
use crate::geometry::Point;
use crate::graph::node::NodeId;

verus! {

/// An edge in the making: it starts at a node and follows the pointer. At
/// most one exists at a time, and only while a link gesture lasts.
#[derive(Clone, Copy, Debug, PartialEq, Eq, Structural)]
pub struct TempEdge {
    pub source: NodeId,
    /// Where the pointer is, in canvas space.
    pub target: Point,
}

impl TempEdge {
    pub fn new(source: NodeId, target: Point) -> (t: TempEdge)
        ensures
            t == (TempEdge { source, target }),
    {
        TempEdge { source, target }
    }
}

} // verus!
