use diagram_canvas::canvas::data::CanvasWidget;
use diagram_canvas::canvas::hit_test::locate;
use diagram_canvas::canvas::model::DragSelectRange;
use diagram_canvas::geometry::Point;
use diagram_canvas::geometry::Rect;
use diagram_canvas::graph::edge::Edge;
use diagram_canvas::graph::edge::EdgeId;
use diagram_canvas::graph::edge::EdgeType;
use diagram_canvas::graph::node::Node;
use diagram_canvas::graph::node::NodeId;
use diagram_canvas::graph::temp_edge::TempEdge;
use diagram_canvas::graph::Graph;
use diagram_canvas::input::frame::FrameInput;
use diagram_canvas::input::state_manager::BusyReason;
use diagram_canvas::input::state_manager::GestureState;
use diagram_canvas::transform::CanvasTransform;
use diagram_canvas::transform::SCALE_UNIT;

const IDLE: GestureState = GestureState::Idle;
const PAN: GestureState = GestureState::Busy(BusyReason::Pan);
const ZOOM: GestureState = GestureState::Busy(BusyReason::Zoom);
const SELECT: GestureState = GestureState::Busy(BusyReason::DragSelect);
const LINK: GestureState = GestureState::Busy(BusyReason::LinkEdge);

/// Node A covers [0, 40] x [0, 20], node B covers [100, 140] x [50, 70].
fn two_nodes() -> (CanvasWidget, NodeId, NodeId) {
    let mut g = Graph::new();
    let a = g.add_node(Node::new(Point::new(0, 0), 40, 20, "A".to_string()));
    let b = g.add_node(Node::new(Point::new(100, 50), 40, 20, "B".to_string()));
    (CanvasWidget::new(g, CanvasTransform::identity()), a, b)
}

fn press(x: i64, y: i64) -> FrameInput {
    let mut i = FrameInput::quiet();
    i.pointer = Some(Point::new(x, y));
    i.primary_pressed = true;
    i.primary_down = true;
    i
}

fn hold(x: i64, y: i64) -> FrameInput {
    let mut i = FrameInput::quiet();
    i.pointer = Some(Point::new(x, y));
    i.primary_down = true;
    i
}

fn release(x: i64, y: i64) -> FrameInput {
    let mut i = FrameInput::quiet();
    i.pointer = Some(Point::new(x, y));
    i.primary_released = true;
    i
}

fn hover(x: i64, y: i64) -> FrameInput {
    let mut i = FrameInput::quiet();
    i.pointer = Some(Point::new(x, y));
    i
}

fn pan(dx: i64, dy: i64) -> FrameInput {
    let mut i = hold(0, 0);
    i.pan_modifier = true;
    i.pointer_delta = Point::new(dx, dy);
    i
}

fn zoom(x: i64, y: i64, factor: u32) -> FrameInput {
    let mut i = hover(x, y);
    i.zoom_factor = factor;
    i
}

fn state(w: &CanvasWidget) -> GestureState {
    w.input_manager.current_state
}

fn agrees(w: &CanvasWidget) -> bool {
    (w.drag_select_range.is_some() == (state(w) == SELECT))
        && (w.graph.get_temp_edge().is_some() == (state(w) == LINK))
}

fn view(w: &CanvasWidget) -> (u32, i64, i64) {
    (w.transform.scale(), w.transform.translation().x, w.transform.translation().y)
}

#[test]
fn an_empty_canvas_is_at_rest() {
    let w = CanvasWidget::empty();
    assert_eq!(state(&w), IDLE);
    assert_eq!(w.drag_select_range, None);
    assert_eq!(w.graph.node_count(), 0);
    assert_eq!(view(&w), (SCALE_UNIT, 0, 0));
}

#[test]
fn a_quiet_frame_changes_nothing() {
    let (mut w, a, _b) = two_nodes();
    w.graph.set_selected_node(Some(a));
    assert_eq!(w.tick(&FrameInput::quiet()), None);
    assert_eq!(w.tick(&hover(20, 10)), None);
    assert_eq!(state(&w), IDLE);
    assert_eq!(w.graph.get_selected_node(), Some(a));
    assert_eq!(w.graph.edge_count(), 0);
    assert_eq!(view(&w), (SCALE_UNIT, 0, 0));
}

#[test]
fn a_link_released_over_the_empty_canvas_adds_no_edge() {
    let (mut w, a, _b) = two_nodes();
    assert_eq!(w.tick(&press(20, 10)), None);
    assert_eq!(state(&w), LINK);
    assert_eq!(w.graph.get_temp_edge(), Some(TempEdge::new(a, Point::new(20, 10))));
    assert_eq!(w.tick(&hold(60, 200)), None);
    assert_eq!(state(&w), LINK);
    assert_eq!(w.graph.get_temp_edge(), Some(TempEdge::new(a, Point::new(60, 200))));
    assert_eq!(w.tick(&release(60, 200)), None);
    assert_eq!(state(&w), IDLE);
    assert_eq!(w.graph.get_temp_edge(), None);
    assert_eq!(w.graph.edge_count(), 0);
}

#[test]
fn a_link_released_over_its_own_source_adds_no_edge() {
    let (mut w, a, _b) = two_nodes();
    w.tick(&press(20, 10));
    w.tick(&hold(25, 12));
    assert_eq!(w.graph.get_temp_edge(), Some(TempEdge::new(a, Point::new(25, 12))));
    assert_eq!(w.tick(&release(20, 10)), None);
    assert_eq!(state(&w), IDLE);
    assert_eq!(w.graph.get_temp_edge(), None);
    assert_eq!(w.graph.edge_count(), 0);
    // the body of the source is the source as well
    w.tick(&press(20, 10));
    assert_eq!(w.tick(&release(2, 2)), None);
    assert_eq!(w.graph.edge_count(), 0);
    assert_eq!(w.graph.get_temp_edge(), None);
}

#[test]
fn a_link_released_over_another_node_adds_the_edge() {
    let (mut w, a, b) = two_nodes();
    w.tick(&press(20, 10));
    w.tick(&hold(80, 40));
    let created = w.tick(&release(105, 52));
    assert_eq!(created, Some(EdgeId { index: 0 }));
    assert_eq!(state(&w), IDLE);
    assert_eq!(w.graph.get_temp_edge(), None);
    assert_eq!(w.graph.edge_list(), vec![(EdgeId { index: 0 }, Edge::new(a, b, EdgeType::Line))]);
    // a second link between the same nodes is a second edge
    w.tick(&press(20, 10));
    let again = w.tick(&release(120, 60));
    assert_eq!(again, Some(EdgeId { index: 1 }));
    assert_eq!(w.graph.edge_count(), 2);
}

#[test]
fn a_link_is_drawn_as_the_kind_of_edge_that_is_set() {
    let (mut w, a, b) = two_nodes();
    w.graph.set_edge_type(EdgeType::Bezier);
    w.tick(&press(120, 60));
    let created = w.tick(&release(20, 10));
    assert_eq!(created, Some(EdgeId { index: 0 }));
    assert_eq!(w.graph.edge_list(), vec![(EdgeId { index: 0 }, Edge::new(b, a, EdgeType::Bezier))]);
}

#[test]
fn a_link_whose_source_is_gone_adds_no_edge() {
    let (mut w, a, _b) = two_nodes();
    w.tick(&press(20, 10));
    w.graph.remove_node(a);
    assert_eq!(w.tick(&release(105, 52)), None);
    assert_eq!(w.graph.edge_count(), 0);
    assert_eq!(w.graph.get_temp_edge(), None);
    assert_eq!(state(&w), IDLE);
}

#[test]
fn a_press_on_the_body_of_a_node_selects_it_and_starts_no_link() {
    let (mut w, a, b) = two_nodes();
    assert_eq!(w.tick(&press(2, 2)), None);
    assert_eq!(state(&w), IDLE);
    assert_eq!(w.graph.get_temp_edge(), None);
    assert_eq!(w.graph.get_selected_node(), Some(a));
    w.tick(&release(2, 2));
    w.tick(&press(139, 69));
    assert_eq!(w.graph.get_selected_node(), Some(b));
}

#[test]
fn the_edge_in_the_making_follows_the_pointer_in_canvas_space() {
    let mut g = Graph::new();
    let a = g.add_node(Node::new(Point::new(0, 0), 40, 20, "A".to_string()));
    let mut w = CanvasWidget::new(g, CanvasTransform::new(2_000_000, Point::new(10, 10)));
    // canvas (20, 10) is shown at screen (50, 30)
    w.tick(&press(50, 30));
    assert_eq!(state(&w), LINK);
    assert_eq!(w.graph.get_temp_edge(), Some(TempEdge::new(a, Point::new(20, 10))));
    w.tick(&hold(410, 210));
    assert_eq!(w.graph.get_temp_edge(), Some(TempEdge::new(a, Point::new(200, 100))));
    // without a pointer the edge stays where it was
    let mut blind = hold(0, 0);
    blind.pointer = None;
    w.tick(&blind);
    assert_eq!(state(&w), LINK);
    assert_eq!(w.graph.get_temp_edge(), Some(TempEdge::new(a, Point::new(200, 100))));
}

#[test]
fn a_rectangle_selection_from_press_to_release() {
    let (mut w, a, b) = two_nodes();
    w.graph.set_editing_node(Some(a));
    assert_eq!(w.tick(&press(-50, -50)), None);
    assert_eq!(state(&w), SELECT);
    assert_eq!(
        w.drag_select_range,
        Some(DragSelectRange { anchor: Point::new(-50, -50), current: Point::new(-50, -50) })
    );
    // the click selection is given up when the rectangle starts
    assert_eq!(w.graph.get_selected_node(), None);
    assert_eq!(w.graph.get_editing_node(), None);
    assert!(w.graph.selection().is_empty());
    w.tick(&hold(30, 30));
    assert_eq!(
        w.drag_select_range,
        Some(DragSelectRange { anchor: Point::new(-50, -50), current: Point::new(30, 30) })
    );
    assert_eq!(w.graph.selection(), &vec![a]);
    w.tick(&hold(150, 100));
    assert_eq!(w.graph.selection(), &vec![a, b]);
    w.tick(&hold(99, 49));
    assert_eq!(w.graph.selection(), &vec![a]);
    w.tick(&hold(100, 50));
    assert_eq!(w.graph.selection(), &vec![a, b]);
    assert_eq!(w.tick(&release(100, 50)), None);
    assert_eq!(state(&w), IDLE);
    assert_eq!(w.drag_select_range, None);
    assert_eq!(w.graph.selection(), &vec![a, b]);
    w.tick(&hover(500, 500));
    assert_eq!(w.graph.selection(), &vec![a, b]);
}

#[test]
fn a_rectangle_selects_the_same_nodes_whichever_way_it_is_dragged() {
    let corners = [
        (Point::new(-50, -50), Point::new(150, 100)),
        (Point::new(-50, -50), Point::new(30, 30)),
        (Point::new(60, 25), Point::new(300, 300)),
        (Point::new(50, 30), Point::new(90, 45)),
    ];
    for (p, q) in corners.iter() {
        let mut picked: Vec<Vec<NodeId>> = Vec::new();
        let drags = [
            (*p, *q),
            (*q, *p),
            (Point::new(p.x, q.y), Point::new(q.x, p.y)),
            (Point::new(q.x, p.y), Point::new(p.x, q.y)),
        ];
        for (from, to) in drags.iter() {
            let (mut w, _a, _b) = two_nodes();
            w.tick(&press(from.x, from.y));
            assert_eq!(state(&w), SELECT);
            w.tick(&hold(to.x, to.y));
            w.tick(&release(to.x, to.y));
            picked.push(w.graph.selection().clone());
        }
        assert_eq!(picked[0], picked[1]);
        assert_eq!(picked[0], picked[2]);
        assert_eq!(picked[0], picked[3]);
    }
}

#[test]
fn the_rectangle_of_a_drag_does_not_depend_on_the_direction() {
    let r = DragSelectRange { anchor: Point::new(10, 80), current: Point::new(-5, 3) };
    let s = DragSelectRange { anchor: Point::new(-5, 3), current: Point::new(10, 80) };
    let want = Rect { min: Point::new(-5, 3), max: Point::new(10, 80) };
    assert_eq!(r.to_rect(), want);
    assert_eq!(s.to_rect(), want);
}

#[test]
fn a_rectangle_without_a_pointer_keeps_its_corner() {
    let (mut w, a, _b) = two_nodes();
    w.tick(&press(-50, -50));
    w.tick(&hold(30, 30));
    let mut blind = hold(0, 0);
    blind.pointer = None;
    w.tick(&blind);
    assert_eq!(state(&w), SELECT);
    assert_eq!(
        w.drag_select_range,
        Some(DragSelectRange { anchor: Point::new(-50, -50), current: Point::new(30, 30) })
    );
    assert_eq!(w.graph.selection(), &vec![a]);
}

#[test]
fn a_pan_moves_the_view_by_the_motion_of_the_pointer() {
    let (mut w, _a, _b) = two_nodes();
    assert_eq!(w.tick(&pan(5, -3)), None);
    assert_eq!(state(&w), PAN);
    assert_eq!(view(&w), (SCALE_UNIT, 5, -3));
    w.tick(&pan(10, 10));
    assert_eq!(state(&w), PAN);
    assert_eq!(view(&w), (SCALE_UNIT, 15, 7));
    // the modifier alone, without the button, ends the pan
    let mut only_modifier = FrameInput::quiet();
    only_modifier.pan_modifier = true;
    only_modifier.pointer_delta = Point::new(9, 9);
    w.tick(&only_modifier);
    assert_eq!(state(&w), IDLE);
    assert_eq!(view(&w), (SCALE_UNIT, 15, 7));
}

#[test]
fn a_pan_starts_no_selection_and_no_link() {
    let (mut w, _a, _b) = two_nodes();
    let mut i = press(20, 10);
    i.pan_modifier = true;
    i.pointer_delta = Point::new(1, 1);
    w.tick(&i);
    assert_eq!(state(&w), PAN);
    assert_eq!(w.graph.get_temp_edge(), None);
    assert_eq!(w.drag_select_range, None);
    let mut j = press(-50, -50);
    j.pan_modifier = true;
    w.tick(&j);
    assert_eq!(state(&w), PAN);
    assert_eq!(w.drag_select_range, None);
}

#[test]
fn a_pan_does_not_break_into_a_selection_or_a_link() {
    let (mut w, a, _b) = two_nodes();
    w.tick(&press(-50, -50));
    let mut i = hold(30, 30);
    i.pan_modifier = true;
    i.pointer_delta = Point::new(80, 80);
    w.tick(&i);
    assert_eq!(state(&w), SELECT);
    assert_eq!(view(&w), (SCALE_UNIT, 0, 0));
    assert_eq!(w.graph.selection(), &vec![a]);
    w.tick(&release(30, 30));
    w.tick(&press(20, 10));
    let mut j = hold(60, 60);
    j.pan_modifier = true;
    j.pointer_delta = Point::new(40, 50);
    w.tick(&j);
    assert_eq!(state(&w), LINK);
    assert_eq!(view(&w), (SCALE_UNIT, 0, 0));
    assert_eq!(w.graph.get_temp_edge(), Some(TempEdge::new(a, Point::new(60, 60))));
}

#[test]
fn a_zoom_scales_the_view_about_the_pointer() {
    let (mut w, _a, _b) = two_nodes();
    assert_eq!(w.tick(&zoom(100, 50, 2_000_000)), None);
    assert_eq!(state(&w), ZOOM);
    assert_eq!(view(&w), (2_000_000, -100, -50));
    // the point under the pointer has not moved
    assert_eq!(w.transform.to_screen(Point::new(100, 50)), Some(Point::new(100, 50)));
    w.tick(&hover(100, 50));
    assert_eq!(state(&w), IDLE);
    assert_eq!(view(&w), (2_000_000, -100, -50));
}

#[test]
fn a_zoom_takes_the_scroll_as_a_pan() {
    let (mut w, _a, _b) = two_nodes();
    let mut i = zoom(100, 50, 2_000_000);
    i.scroll_delta = Point::new(7, -8);
    w.tick(&i);
    assert_eq!(view(&w), (2_000_000, -93, -58));
}

#[test]
fn a_scroll_without_a_zoom_moves_the_view() {
    let (mut w, a, _b) = two_nodes();
    let mut i = hover(100, 50);
    i.scroll_delta = Point::new(7, -8);
    assert_eq!(w.tick(&i), None);
    assert_eq!(state(&w), PAN);
    assert_eq!(view(&w), (SCALE_UNIT, 7, -8));
    // a scroll without a pointer moves the view as well
    let mut blind = FrameInput::quiet();
    blind.scroll_delta = Point::new(0, 20);
    w.tick(&blind);
    assert_eq!(state(&w), PAN);
    assert_eq!(view(&w), (SCALE_UNIT, 7, 12));
    // a drag with the modifier and a scroll in one frame both move it
    let mut both = pan(1, 2);
    both.scroll_delta = Point::new(10, 20);
    w.tick(&both);
    assert_eq!(state(&w), PAN);
    assert_eq!(view(&w), (SCALE_UNIT, 18, 34));
    w.tick(&hover(0, 0));
    assert_eq!(state(&w), IDLE);
    assert_eq!(view(&w), (SCALE_UNIT, 18, 34));
    // a scroll does not break into a selection or a link
    w.tick(&press(500, 500));
    assert_eq!(state(&w), SELECT);
    let mut held = hold(510, 510);
    held.scroll_delta = Point::new(9, 9);
    w.tick(&held);
    assert_eq!(state(&w), SELECT);
    assert_eq!(view(&w), (SCALE_UNIT, 18, 34));
    w.tick(&release(510, 510));
    // a scroll that cannot be stored leaves the view
    let mut far = FrameInput::quiet();
    far.scroll_delta = Point::new(i64::MAX, 0);
    w.tick(&far);
    assert_eq!(state(&w), PAN);
    assert_eq!(view(&w), (SCALE_UNIT, 18, 34));
    assert!(w.graph.contains_node(a));
}

#[test]
fn a_link_from_a_removed_node_does_not_commit_from_the_node_in_its_slot() {
    let (mut w, a, b) = two_nodes();
    w.tick(&press(20, 10));
    assert_eq!(state(&w), LINK);
    assert_eq!(w.graph.get_temp_edge().unwrap().source, a);
    w.graph.remove_node(a);
    let heir = w.graph.add_node(Node::new(Point::new(0, 0), 40, 20, "heir".to_string()));
    assert_eq!(heir.index, a.index);
    assert_ne!(heir, a);
    assert_eq!(w.tick(&release(105, 52)), None);
    assert_eq!(w.graph.edge_count(), 0);
    assert_eq!(w.graph.get_temp_edge(), None);
    assert_eq!(state(&w), IDLE);
    assert!(w.graph.contains_node(b));
}

#[test]
fn a_zoom_without_a_pointer_does_nothing() {
    let (mut w, _a, _b) = two_nodes();
    let mut i = FrameInput::quiet();
    i.zoom_factor = 2_000_000;
    w.tick(&i);
    assert_eq!(state(&w), IDLE);
    assert_eq!(view(&w), (SCALE_UNIT, 0, 0));
}

#[test]
fn a_zoom_that_cannot_be_stored_leaves_the_view() {
    let g = Graph::new();
    let mut w = CanvasWidget::new(g, CanvasTransform::new(SCALE_UNIT, Point::new(i64::MAX, 0)));
    w.tick(&zoom(-1000, 0, 2_000_000));
    assert_eq!(state(&w), ZOOM);
    assert_eq!(view(&w), (SCALE_UNIT, i64::MAX, 0));
}

#[test]
fn a_pan_comes_before_a_zoom_in_the_same_frame() {
    let (mut w, _a, _b) = two_nodes();
    let mut i = pan(5, 5);
    i.zoom_factor = 2_000_000;
    w.tick(&i);
    assert_eq!(state(&w), PAN);
    assert_eq!(view(&w), (SCALE_UNIT, 5, 5));
}

#[test]
fn a_zoom_drops_the_link_in_progress() {
    let (mut w, _a, _b) = two_nodes();
    w.tick(&press(20, 10));
    assert_eq!(state(&w), LINK);
    let mut i = hold(105, 52);
    i.zoom_factor = 1_500_000;
    assert_eq!(w.tick(&i), None);
    assert_eq!(state(&w), ZOOM);
    assert_eq!(w.graph.get_temp_edge(), None);
    assert_eq!(w.transform.scale(), 1_500_000);
    // the release that follows commits nothing
    assert_eq!(w.tick(&release(105, 52)), None);
    assert_eq!(w.graph.edge_count(), 0);
    assert_eq!(state(&w), IDLE);
}

#[test]
fn a_zoom_drops_the_rectangle_and_keeps_the_selection() {
    let (mut w, a, _b) = two_nodes();
    w.tick(&press(-50, -50));
    w.tick(&hold(30, 30));
    let mut i = hold(30, 30);
    i.zoom_factor = 1_500_000;
    w.tick(&i);
    assert_eq!(state(&w), ZOOM);
    assert_eq!(w.drag_select_range, None);
    assert_eq!(w.graph.selection(), &vec![a]);
}

#[test]
fn cancel_drops_the_gesture_without_committing() {
    let (mut w, _a, _b) = two_nodes();
    w.tick(&press(20, 10));
    w.tick(&hold(105, 52));
    let mut i = release(105, 52);
    i.cancel = true;
    assert_eq!(w.tick(&i), None);
    assert_eq!(state(&w), IDLE);
    assert_eq!(w.graph.get_temp_edge(), None);
    assert_eq!(w.graph.edge_count(), 0);
    w.tick(&press(-50, -50));
    w.tick(&hold(30, 30));
    let mut j = hold(40, 40);
    j.cancel = true;
    w.tick(&j);
    assert_eq!(state(&w), IDLE);
    assert_eq!(w.drag_select_range, None);
    let mut k = pan(3, 3);
    k.cancel = true;
    w.tick(&k);
    assert_eq!(state(&w), IDLE);
    assert_eq!(view(&w), (SCALE_UNIT, 0, 0));
}

#[test]
fn abandon_drops_the_gesture() {
    let (mut w, _a, _b) = two_nodes();
    w.tick(&press(20, 10));
    w.abandon();
    assert_eq!(state(&w), IDLE);
    assert_eq!(w.graph.get_temp_edge(), None);
    assert_eq!(w.drag_select_range, None);
    assert_eq!(w.graph.node_count(), 2);
}

#[test]
fn a_stray_edge_in_the_making_does_not_survive_a_frame() {
    let (mut w, a, _b) = two_nodes();
    w.graph.set_temp_edge(Some(TempEdge::new(a, Point::new(1, 1))));
    w.tick(&FrameInput::quiet());
    assert_eq!(state(&w), IDLE);
    assert_eq!(w.graph.get_temp_edge(), None);
    // and a link gesture whose edge was taken away has ended
    w.tick(&press(20, 10));
    assert_eq!(state(&w), LINK);
    w.graph.set_temp_edge(None);
    assert_eq!(w.tick(&release(105, 52)), None);
    assert_eq!(state(&w), IDLE);
    assert_eq!(w.graph.edge_count(), 0);
}

#[test]
fn reconcile_brings_state_and_gesture_data_to_agreement() {
    let (mut w, a, _b) = two_nodes();
    w.drag_select_range =
        Some(DragSelectRange { anchor: Point::zero(), current: Point::new(1, 1) });
    w.graph.set_temp_edge(Some(TempEdge::new(a, Point::zero())));
    w.reconcile();
    assert_eq!(state(&w), IDLE);
    assert_eq!(w.drag_select_range, None);
    assert_eq!(w.graph.get_temp_edge(), None);
    w.input_manager.make_busy(BusyReason::DragSelect);
    w.reconcile();
    assert_eq!(state(&w), IDLE);
    w.input_manager.make_busy(BusyReason::LinkEdge);
    w.graph.set_temp_edge(Some(TempEdge::new(a, Point::zero())));
    w.drag_select_range =
        Some(DragSelectRange { anchor: Point::zero(), current: Point::new(1, 1) });
    w.reconcile();
    assert_eq!(state(&w), LINK);
    assert_eq!(w.drag_select_range, None);
    assert_eq!(w.graph.get_temp_edge(), Some(TempEdge::new(a, Point::zero())));
}

#[test]
fn at_most_one_gesture_holds_anything_after_every_frame() {
    let (mut w, _a, _b) = two_nodes();
    let mut zoom_and_hold = hold(105, 52);
    zoom_and_hold.zoom_factor = 1_100_000;
    let mut cancel = hover(0, 0);
    cancel.cancel = true;
    let script = [
        press(20, 10),
        hold(60, 60),
        pan(5, 5),
        release(105, 52),
        press(-50, -50),
        hold(30, 30),
        zoom_and_hold,
        hold(40, 40),
        release(40, 40),
        pan(1, 1),
        press(-60, -60),
        zoom(0, 0, 900_000),
        press(-70, -70),
        hold(10, 10),
        cancel,
        press(20, 10),
        cancel,
        hover(3, 3),
        press(20, 10),
        release(20, 10),
        FrameInput::quiet(),
    ];
    let mut seen_idle_with_temp_edge = false;
    for input in script.iter() {
        let before = w.input_manager;
        let target = locate(&w.graph, &w.transform, input.pointer);
        w.tick(input);
        assert!(agrees(&w));
        assert_eq!(state(&w), before.decide(input, target));
        if state(&w) == IDLE && w.graph.get_temp_edge().is_some() {
            seen_idle_with_temp_edge = true;
        }
    }
    assert!(!seen_idle_with_temp_edge);
}

#[test]
fn the_steps_of_a_frame_can_be_taken_one_by_one() {
    let (mut w, a, b) = two_nodes();
    let input = press(20, 10);
    let target = locate(&w.graph, &w.transform, input.pointer);
    w.handle_pan(&input);
    w.handle_scale(&input);
    w.handle_drag_select(&input, target);
    assert_eq!(state(&w), IDLE);
    assert_eq!(w.handle_link(&input, target), None);
    assert_eq!(state(&w), LINK);
    w.handle_pick(&input, target);
    assert_eq!(w.graph.get_selected_node(), None);
    let input = release(120, 60);
    let target = locate(&w.graph, &w.transform, input.pointer);
    w.handle_drag_select(&input, target);
    assert_eq!(state(&w), LINK);
    assert_eq!(w.handle_link(&input, target), Some(EdgeId { index: 0 }));
    assert_eq!(w.graph.edge_list(), vec![(EdgeId { index: 0 }, Edge::new(a, b, EdgeType::Line))]);
    let input = pan(4, 4);
    w.handle_pan(&input);
    assert_eq!(state(&w), PAN);
    // during a pan a zoom signal is not taken
    let z = zoom(0, 0, 2_000_000);
    w.handle_scale(&z);
    assert_eq!(state(&w), PAN);
    assert_eq!(view(&w), (SCALE_UNIT, 4, 4));
    w.handle_pan(&FrameInput::quiet());
    assert_eq!(state(&w), IDLE);
    w.handle_scale(&z);
    assert_eq!(state(&w), ZOOM);
    w.handle_scale(&FrameInput::quiet());
    assert_eq!(state(&w), IDLE);
}

#[test]
fn a_zoom_about_a_node_keeps_it_in_place_and_doubles_the_offset_of_its_neighbour() {
    let mut g = Graph::new();
    let a = g.add_node(Node::new(Point::new(0, 0), 40, 20, "A".to_string()));
    let b = g.add_node(Node::new(Point::new(100, 50), 40, 20, "B".to_string()));
    g.add_edge(Edge::new(a, b, EdgeType::Line)).unwrap();
    let mut w = CanvasWidget::new(g, CanvasTransform::new(1_500_000, Point::new(30, 40)));
    let place = |w: &CanvasWidget, id: NodeId| {
        w.transform.to_screen(w.graph.get_node(id).unwrap().position).unwrap()
    };
    let a_before = place(&w, a);
    let b_before = place(&w, b);
    assert_eq!(a_before, Point::new(30, 40));
    assert_eq!(b_before, Point::new(180, 115));
    w.tick(&zoom(a_before.x, a_before.y, 2_000_000));
    assert_eq!(state(&w), ZOOM);
    let a_after = place(&w, a);
    let b_after = place(&w, b);
    assert_eq!(a_after, a_before);
    assert_eq!(b_after.x - a_after.x, 2 * (b_before.x - a_before.x));
    assert_eq!(b_after.y - a_after.y, 2 * (b_before.y - a_before.y));
    assert_eq!(b_after, Point::new(330, 190));
    // the graph is as it was
    assert_eq!(w.graph.node_count(), 2);
    assert_eq!(w.graph.edge_list(), vec![(EdgeId { index: 0 }, Edge::new(a, b, EdgeType::Line))]);
    assert_eq!(w.graph.get_node(b).unwrap().position, Point::new(100, 50));
}

#[test]
fn the_default_canvas_is_the_empty_one() {
    let w = CanvasWidget::default();
    assert_eq!(state(&w), IDLE);
    assert_eq!(w.drag_select_range, None);
    assert_eq!(w.graph.node_count(), 0);
    assert_eq!(view(&w), (SCALE_UNIT, 0, 0));
}
