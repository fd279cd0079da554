//! Finding what lies under the pointer.

use vstd::prelude::*;
use crate::canvas::model::covers;
use crate::canvas::model::is_top;
use crate::canvas::model::located;
use crate::canvas::model::node_covers;
use crate::canvas::model::over_at;
use crate::canvas::model::top_node_at;
use crate::geometry::Point;
use crate::graph::node::Node;
use crate::graph::node::NodeId;
use crate::graph::Graph;
use crate::input::frame::Hit;
use crate::input::frame::Over;
use crate::transform::CanvasTransform;

verus! {

/// Whether the box of a node holds a canvas point.
pub fn node_holds(node: &Node, c: Point) -> (inside: bool)
    ensures
        inside == covers(*node, c),
{
    match node.bounds() {
        Some(frame) => frame.contains(c),
        None => false,
    }
}

/// A node on top is the only one.
pub proof fn lemma_top_is_unique(g: crate::graph::model::GraphModel, c: Point, a: NodeId, b: NodeId)
    requires
        is_top(g, c, a),
        is_top(g, c, b),
    ensures
        a == b,
{
    assert(node_covers(g, a, c));
    assert(node_covers(g, b, c));
}

/// The node on top at a canvas point: of the nodes whose box holds the
/// point, the one with the largest index.
pub fn node_at(graph: &Graph, c: Point) -> (r: Option<NodeId>)
    ensures
        r == top_node_at(graph@, c),
        r matches Some(id) ==> is_top(graph@, c, id),
        r is None ==> forall|id: NodeId| !node_covers(graph@, id, c),
{
    let ids = graph.node_indices();
    let mut best: Option<NodeId> = None;
    let mut i: usize = 0;
    while i < ids.len()
        invariant
            i <= ids.len(),
            forall|a: int, b: int| 0 <= a < b < ids@.len() ==> ids@[a].index < ids@[b].index,
            forall|k: int| 0 <= k < ids@.len() ==> graph@.has_node(#[trigger] ids@[k]),
            best matches Some(id) ==> node_covers(graph@, id, c) && exists|k: int|
                0 <= k < i && ids@[k] == id,
            forall|k: int|
                0 <= k < i && node_covers(graph@, #[trigger] ids@[k], c) ==> best is Some
                    && ids@[k].index <= best->Some_0.index,
        decreases ids.len() - i,
    {
        let id = ids[i];
        match graph.get_node(id) {
            Some(node) => {
                if node_holds(node, c) {
                    best = Some(id);
                }
            },
            None => {},
        }
        i += 1;
    }
    proof {
        match best {
            Some(id) => {
                assert forall|other: NodeId| #[trigger]
                    node_covers(graph@, other, c) implies other.index <= id.index by {
                    assert(ids@.contains(other));
                    let k = choose|k: int| 0 <= k < ids@.len() && ids@[k] == other;
                    assert(node_covers(graph@, ids@[k], c));
                }
                assert(is_top(graph@, c, id));
                let chosen = choose|x: NodeId| is_top(graph@, c, x);
                lemma_top_is_unique(graph@, c, id, chosen);
            },
            None => {
                assert forall|x: NodeId| !node_covers(graph@, x, c) by {
                    if node_covers(graph@, x, c) {
                        assert(ids@.contains(x));
                        let k = choose|k: int| 0 <= k < ids@.len() && ids@[k] == x;
                        assert(node_covers(graph@, ids@[k], c));
                    }
                }
            },
        }
    }
    best
}

/// What lies at a canvas point: the empty canvas, or the node on top, and
/// then whether the point is in its link region.
pub fn what_is_at(graph: &Graph, c: Point) -> (over: Over)
    ensures
        over == over_at(graph@, c),
{
    match node_at(graph, c) {
        None => Over::Canvas,
        Some(id) => match graph.get_node(id) {
            Some(node) => match node.link_bounds() {
                Some(region) => if region.contains(c) {
                    Over::Anchor(id)
                } else {
                    Over::Body(id)
                },
                None => Over::Body(id),
            },
            None => Over::Canvas,
        },
    }
}

/// Places the pointer of a frame on the canvas. There is no hit without a
/// pointer, nor where the canvas position of the pointer cannot be stored.
pub fn locate(graph: &Graph, transform: &CanvasTransform, pointer: Option<Point>) -> (hit: Option<
    Hit,
>)
    ensures
        hit == located(graph@, transform@, pointer),
{
    match pointer {
        None => None,
        Some(p) => match transform.to_canvas(p) {
            None => None,
            Some(c) => Some(Hit { screen: p, canvas: c, over: what_is_at(graph, c) }),
        },
    }
}

} // verus!
