//! The shape of an edge between two anchor points.

use vstd::prelude::*;
use crate::geometry::max_coord;
use crate::geometry::min_coord;
use crate::geometry::Point;
use crate::graph::edge::Edge;
use crate::graph::edge::EdgeType;
use crate::graph::model::GraphModel;
use crate::graph::temp_edge::TempEdge;
use crate::graph::Graph;
use crate::transform::dist;

verus! {

/// The path along which an edge is drawn, in canvas space.
#[derive(Clone, Copy, Debug, PartialEq, Eq, Structural)]
pub enum EdgePath {
    /// The straight segment between two points.
    Line { from: Point, to: Point },
    /// The cubic curve from `from` to `to` with two control points.
    Bezier { from: Point, control_1: Point, control_2: Point, to: Point },
}

/// The endpoints lie further apart across than up and down; a tie counts as
/// across.
pub open spec fn runs_across(from: Point, to: Point) -> bool {
    dist(from.x as int, to.x as int) >= dist(from.y as int, to.y as int)
}

/// The first control point of a curve: half the separation away from the
/// start, towards the end, along the axis on which the endpoints lie
/// further apart. Half of an odd separation is rounded down.
pub open spec fn first_control(from: Point, to: Point) -> Point {
    if runs_across(from, to) {
        Point { x: (from.x + (to.x - from.x) / 2) as i64, y: from.y }
    } else {
        Point { x: from.x, y: (from.y + (to.y - from.y) / 2) as i64 }
    }
}

/// The second control point of a curve: as far away from the end, towards
/// the start, along the same axis.
pub open spec fn second_control(from: Point, to: Point) -> Point {
    if runs_across(from, to) {
        Point { x: (to.x - (to.x - from.x) / 2) as i64, y: to.y }
    } else {
        Point { x: to.x, y: (to.y - (to.y - from.y) / 2) as i64 }
    }
}

/// The path of an edge of the given kind between two anchor points.
pub open spec fn path_between(from: Point, to: Point, edge_type: EdgeType) -> EdgePath {
    match edge_type {
        EdgeType::Line => EdgePath::Line { from, to },
        EdgeType::Bezier => EdgePath::Bezier {
            from,
            control_1: first_control(from, to),
            control_2: second_control(from, to),
            to,
        },
    }
}

/// A coordinate lies between two others, ends included.
pub open spec fn between(v: int, a: int, b: int) -> bool {
    min_coord(a, b) <= v <= max_coord(a, b)
}

/// Both control points of a curve lie in the box spanned by its endpoints,
/// each on the level of its own endpoint, and the two are mirror images:
/// the first is as far from the start as the second is from the end.
pub proof fn lemma_controls_between_endpoints(from: Point, to: Point)
    ensures
        between(first_control(from, to).x as int, from.x as int, to.x as int),
        between(first_control(from, to).y as int, from.y as int, to.y as int),
        between(second_control(from, to).x as int, from.x as int, to.x as int),
        between(second_control(from, to).y as int, from.y as int, to.y as int),
        first_control(from, to).x - from.x == to.x - second_control(from, to).x,
        first_control(from, to).y - from.y == to.y - second_control(from, to).y,
        runs_across(from, to) ==> first_control(from, to).y == from.y && second_control(
            from,
            to,
        ).y == to.y,
        !runs_across(from, to) ==> first_control(from, to).x == from.x && second_control(
            from,
            to,
        ).x == to.x,
{
}

/// Half of the way from `a` to `b`, rounded down.
fn half_way(a: i64, b: i64) -> (h: i64)
    ensures
        h == (b - a) / 2,
        a + h == (a + (b - a) / 2) as i64,
        b - h == (b - (b - a) / 2) as i64,
        i64::MIN <= a + h <= i64::MAX,
        i64::MIN <= b - h <= i64::MAX,
{
    let d: i128 = b as i128 - a as i128;
    let h = d.checked_div_euclid(2).unwrap();
    h as i64
}

/// How far apart two coordinates lie.
fn gap(a: i64, b: i64) -> (d: i128)
    ensures
        d == dist(a as int, b as int),
{
    if a <= b {
        b as i128 - a as i128
    } else {
        a as i128 - b as i128
    }
}

/// The path of an edge of the given kind between two anchor points: a
/// segment for a line; for a curve, control points half the separation away
/// from each endpoint, towards the other, along the axis on which the
/// endpoints lie further apart.
pub fn edge_path(from: Point, to: Point, edge_type: EdgeType) -> (path: EdgePath)
    ensures
        path == path_between(from, to, edge_type),
{
    match edge_type {
        EdgeType::Line => EdgePath::Line { from, to },
        EdgeType::Bezier => {
            if gap(from.x, to.x) >= gap(from.y, to.y) {
                let h = half_way(from.x, to.x);
                EdgePath::Bezier {
                    from,
                    control_1: Point { x: from.x + h, y: from.y },
                    control_2: Point { x: to.x - h, y: to.y },
                    to,
                }
            } else {
                let h = half_way(from.y, to.y);
                EdgePath::Bezier {
                    from,
                    control_1: Point { x: from.x, y: from.y + h },
                    control_2: Point { x: to.x, y: to.y - h },
                    to,
                }
            }
        },
    }
}

/// The path of an edge of a graph, between the anchors of its two nodes.
/// There is none where an endpoint is not in the graph or has a box whose
/// far corner cannot be stored.
pub open spec fn path_in(g: GraphModel, edge: Edge) -> Option<EdgePath> {
    if g.has_node(edge.source) && g.has_node(edge.target) && g.nodes[edge.source.index as int].has_frame()
        && g.nodes[edge.target.index as int].has_frame() {
        Some(
            path_between(
                g.nodes[edge.source.index as int].anchor_point(),
                g.nodes[edge.target.index as int].anchor_point(),
                edge.edge_type,
            ),
        )
    } else {
        None
    }
}

/// The path of the edge in the making, from the anchor of its source to the
/// pointer, drawn as the kind of edge that the graph draws next.
pub open spec fn preview_in(g: GraphModel, temp: TempEdge) -> Option<EdgePath> {
    if g.has_node(temp.source) && g.nodes[temp.source.index as int].has_frame() {
        Some(
            path_between(
                g.nodes[temp.source.index as int].anchor_point(),
                temp.target,
                g.edge_type,
            ),
        )
    } else {
        None
    }
}

/// The path of an edge of the graph.
pub fn edge_path_in(graph: &Graph, edge: &Edge) -> (path: Option<EdgePath>)
    ensures
        path == path_in(graph@, *edge),
{
    let from = match graph.get_node(edge.source) {
        Some(node) => node.anchor(),
        None => None,
    };
    let to = match graph.get_node(edge.target) {
        Some(node) => node.anchor(),
        None => None,
    };
    match (from, to) {
        (Some(from), Some(to)) => Some(edge_path(from, to, edge.edge_type)),
        _ => None,
    }
}

/// The path of the edge in the making.
pub fn preview_path(graph: &Graph, temp: &TempEdge) -> (path: Option<EdgePath>)
    ensures
        path == preview_in(graph@, *temp),
{
    match graph.get_node(temp.source) {
        Some(node) => match node.anchor() {
            Some(from) => Some(edge_path(from, temp.target, graph.edge_type())),
            None => None,
        },
        None => None,
    }
}

} // verus!
