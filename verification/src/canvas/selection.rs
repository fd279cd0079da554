//! The nodes that a selection rectangle picks.

use vstd::prelude::*;
use crate::canvas::model::hits;
use crate::canvas::model::shows_in;
use crate::geometry::Rect;
use crate::graph::node::Node;
use crate::graph::node::NodeId;
use crate::graph::Graph;
use crate::transform::CanvasTransform;

verus! {

/// Whether the box of a node, as shown on screen, shares a point with a
/// screen rectangle. A box that cannot be stored, in canvas space or on
/// screen, shares none.
pub fn node_shows_in(node: &Node, transform: &CanvasTransform, rect: &Rect) -> (hit: bool)
    ensures
        hit == shows_in(*node, transform@, *rect),
{
    match node.bounds() {
        Some(frame) => match transform.rect_to_screen(&frame) {
            Some(shown) => shown.intersects(rect),
            None => false,
        },
        None => false,
    }
}

/// The nodes whose box, as shown on screen, shares a point with the
/// rectangle, from the smallest index to the largest.
pub fn select_hits(graph: &Graph, transform: &CanvasTransform, rect: &Rect) -> (picked: Vec<NodeId>)
    ensures
        picked@.to_set() == hits(graph@, transform@, *rect),
        forall|a: int, b: int| 0 <= a < b < picked@.len() ==> picked@[a].index < picked@[b].index,
{
    let ids = graph.node_indices();
    let mut picked: Vec<NodeId> = Vec::new();
    let mut i: usize = 0;
    while i < ids.len()
        invariant
            i <= ids.len(),
            forall|a: int, b: int| 0 <= a < b < ids@.len() ==> ids@[a].index < ids@[b].index,
            forall|k: int| 0 <= k < ids@.len() ==> graph@.has_node(#[trigger] ids@[k]),
            forall|a: int, b: int|
                0 <= a < b < picked@.len() ==> picked@[a].index < picked@[b].index,
            forall|a: int| 0 <= a < picked@.len() ==> exists|k: int| 0 <= k < i && ids@[k] == #[trigger] picked@[a],
            forall|a: int|
                0 <= a < picked@.len() ==> shows_in(
                    graph@.nodes[(#[trigger] picked@[a]).index as int],
                    transform@,
                    *rect,
                ),
            forall|k: int|
                0 <= k < i && shows_in(
                    graph@.nodes[(#[trigger] ids@[k]).index as int],
                    transform@,
                    *rect,
                ) ==> picked@.contains(ids@[k]),
        decreases ids.len() - i,
    {
        let id = ids[i];
        let ghost before = picked@;
        match graph.get_node(id) {
            Some(node) => {
                if node_shows_in(node, transform, rect) {
                    picked.push(id);
                    proof {
                        assert(picked@[picked@.len() - 1] == id);
                        assert forall|a: int, b: int|
                            0 <= a < b < picked@.len() implies picked@[a].index
                            < picked@[b].index by {
                            if b == picked@.len() - 1 {
                                let k = choose|k: int| 0 <= k < i && ids@[k] == before[a];
                                assert(ids@[k].index < ids@[i as int].index);
                            } else {
                                assert(before[a].index < before[b].index);
                            }
                        }
                        assert forall|k: int|
                            0 <= k < i + 1 && shows_in(
                                graph@.nodes[(#[trigger] ids@[k]).index as int],
                                transform@,
                                *rect,
                            ) implies picked@.contains(ids@[k]) by {
                            if k < i {
                                assert(before.contains(ids@[k]));
                                let a = choose|a: int| 0 <= a < before.len() && before[a] == ids@[k];
                                assert(picked@[a] == ids@[k]);
                            }
                        }
                    }
                }
            },
            None => {},
        }
        i += 1;
    }
    proof {
        let want = hits(graph@, transform@, *rect);
        assert forall|x: NodeId| picked@.to_set().contains(x) <==> want.contains(x) by {
            if picked@.contains(x) {
                let a = choose|a: int| 0 <= a < picked@.len() && picked@[a] == x;
                let k = choose|k: int| 0 <= k < i && ids@[k] == picked@[a];
                assert(graph@.has_node(ids@[k]));
            }
            if want.contains(x) {
                assert(ids@.contains(x));
                let k = choose|k: int| 0 <= k < ids@.len() && ids@[k] == x;
                assert(picked@.contains(ids@[k]));
            }
        }
        assert(picked@.to_set() =~= want);
    }
    picked
}

} // verus!
