use diagram_canvas::edge_path::edge_path;
use diagram_canvas::edge_path::edge_path_in;
use diagram_canvas::edge_path::preview_path;
use diagram_canvas::edge_path::EdgePath;
use diagram_canvas::geometry::Point;
use diagram_canvas::graph::edge::Edge;
use diagram_canvas::graph::edge::EdgeType;
use diagram_canvas::graph::node::Node;
use diagram_canvas::graph::node::NodeId;
use diagram_canvas::graph::temp_edge::TempEdge;
use diagram_canvas::graph::Graph;

fn curve(from: Point, c1: Point, c2: Point, to: Point) -> EdgePath {
    EdgePath::Bezier { from, control_1: c1, control_2: c2, to }
}

#[test]
fn a_line_is_the_segment() {
    let a = Point::new(1, 2);
    let b = Point::new(-30, 40);
    assert_eq!(edge_path(a, b, EdgeType::Line), EdgePath::Line { from: a, to: b });
}

#[test]
fn a_curve_across_has_level_control_points() {
    let a = Point::new(0, 0);
    let b = Point::new(100, 40);
    assert_eq!(
        edge_path(a, b, EdgeType::Bezier),
        curve(a, Point::new(50, 0), Point::new(50, 40), b)
    );
}

#[test]
fn a_curve_up_and_down_has_upright_control_points() {
    let a = Point::new(10, 0);
    let b = Point::new(30, 100);
    assert_eq!(
        edge_path(a, b, EdgeType::Bezier),
        curve(a, Point::new(10, 50), Point::new(30, 50), b)
    );
}

#[test]
fn a_tie_counts_as_across() {
    let a = Point::new(0, 0);
    let b = Point::new(40, -40);
    assert_eq!(
        edge_path(a, b, EdgeType::Bezier),
        curve(a, Point::new(20, 0), Point::new(20, -40), b)
    );
}

#[test]
fn a_curve_from_right_to_left_points_at_the_target() {
    let a = Point::new(100, 0);
    let b = Point::new(0, 10);
    assert_eq!(
        edge_path(a, b, EdgeType::Bezier),
        curve(a, Point::new(50, 0), Point::new(50, 10), b)
    );
}

#[test]
fn half_of_an_odd_separation_is_rounded_down() {
    let a = Point::new(0, 0);
    let b = Point::new(7, 0);
    // half of 7 is 3
    assert_eq!(edge_path(a, b, EdgeType::Bezier), curve(a, Point::new(3, 0), Point::new(4, 0), b));
    // half of -7 is -4
    assert_eq!(edge_path(b, a, EdgeType::Bezier), curve(b, Point::new(3, 0), Point::new(4, 0), a));
    let c = Point::new(0, -5);
    // half of -5 is -3
    assert_eq!(
        edge_path(a, c, EdgeType::Bezier),
        curve(a, Point::new(0, -3), Point::new(0, -2), c)
    );
}

#[test]
fn a_curve_between_equal_points_stays_there() {
    let a = Point::new(5, 5);
    assert_eq!(edge_path(a, a, EdgeType::Bezier), curve(a, a, a, a));
}

#[test]
fn a_curve_between_the_extremes_does_not_overflow() {
    let a = Point::new(i64::MIN, 0);
    let b = Point::new(i64::MAX, 0);
    // the separation is 2^64 - 1, half of it 2^63 - 1
    assert_eq!(edge_path(a, b, EdgeType::Bezier), curve(a, Point::new(-1, 0), Point::new(0, 0), b));
    let c = Point::new(0, i64::MAX);
    let d = Point::new(0, i64::MIN);
    assert_eq!(edge_path(c, d, EdgeType::Bezier), curve(c, Point::new(0, -1), Point::new(0, 0), d));
}

#[test]
fn the_path_of_an_edge_joins_the_anchors() {
    let mut g = Graph::new();
    let a = g.add_node(Node::new(Point::new(0, 0), 40, 20, "a".to_string()));
    let b = g.add_node(Node::new(Point::new(100, 50), 41, 21, "b".to_string()));
    // anchors: (20, 10) and (120, 60)
    assert_eq!(
        edge_path_in(&g, &Edge::new(a, b, EdgeType::Line)),
        Some(EdgePath::Line { from: Point::new(20, 10), to: Point::new(120, 60) })
    );
    assert_eq!(
        edge_path_in(&g, &Edge::new(a, b, EdgeType::Bezier)),
        Some(curve(
            Point::new(20, 10),
            Point::new(70, 10),
            Point::new(70, 60),
            Point::new(120, 60)
        ))
    );
    assert_eq!(edge_path_in(&g, &Edge::new(a, NodeId::new(7, 0), EdgeType::Line)), None);
    assert_eq!(edge_path_in(&g, &Edge::new(NodeId::new(7, 0), a, EdgeType::Line)), None);
}

#[test]
fn a_node_whose_box_cannot_be_stored_has_no_path() {
    let mut g = Graph::new();
    let a = g.add_node(Node::new(Point::new(0, 0), 40, 20, "a".to_string()));
    let far = g.add_node(Node::new(Point::new(i64::MAX - 10, 0), 40, 20, "far".to_string()));
    assert_eq!(edge_path_in(&g, &Edge::new(a, far, EdgeType::Line)), None);
    assert_eq!(preview_path(&g, &TempEdge::new(far, Point::zero())), None);
}

#[test]
fn the_preview_runs_from_the_anchor_to_the_pointer() {
    let mut g = Graph::new();
    let a = g.add_node(Node::new(Point::new(0, 0), 40, 20, "a".to_string()));
    let t = TempEdge::new(a, Point::new(220, 30));
    assert_eq!(
        preview_path(&g, &t),
        Some(EdgePath::Line { from: Point::new(20, 10), to: Point::new(220, 30) })
    );
    g.set_edge_type(EdgeType::Bezier);
    assert_eq!(
        preview_path(&g, &t),
        Some(curve(
            Point::new(20, 10),
            Point::new(120, 10),
            Point::new(120, 30),
            Point::new(220, 30)
        ))
    );
    assert_eq!(preview_path(&g, &TempEdge::new(NodeId::new(4, 0), Point::zero())), None);
}
