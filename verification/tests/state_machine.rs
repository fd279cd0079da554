use diagram_canvas::geometry::Point;
use diagram_canvas::graph::node::NodeId;
use diagram_canvas::input::frame::FrameInput;
use diagram_canvas::input::frame::Hit;
use diagram_canvas::input::frame::Over;
use diagram_canvas::input::state_manager::BusyReason;
use diagram_canvas::input::state_manager::GestureState;
use diagram_canvas::input::state_manager::InputStateManager;
use diagram_canvas::transform::SCALE_UNIT;

const IDLE: GestureState = GestureState::Idle;
const PAN: GestureState = GestureState::Busy(BusyReason::Pan);
const ZOOM: GestureState = GestureState::Busy(BusyReason::Zoom);
const SELECT: GestureState = GestureState::Busy(BusyReason::DragSelect);
const LINK: GestureState = GestureState::Busy(BusyReason::LinkEdge);

fn at(state: GestureState) -> InputStateManager {
    let mut m = InputStateManager::new();
    match state {
        GestureState::Idle => m.make_idle(),
        GestureState::Busy(reason) => m.make_busy(reason),
    }
    m
}

fn hit(over: Over) -> Option<Hit> {
    Some(Hit { screen: Point::new(1, 2), canvas: Point::new(3, 4), over })
}

fn press() -> FrameInput {
    let mut i = FrameInput::quiet();
    i.pointer = Some(Point::new(1, 2));
    i.primary_pressed = true;
    i.primary_down = true;
    i
}

fn hold() -> FrameInput {
    let mut i = FrameInput::quiet();
    i.pointer = Some(Point::new(1, 2));
    i.primary_down = true;
    i
}

fn release() -> FrameInput {
    let mut i = FrameInput::quiet();
    i.pointer = Some(Point::new(1, 2));
    i.primary_released = true;
    i
}

fn pan() -> FrameInput {
    let mut i = hold();
    i.pan_modifier = true;
    i
}

fn zoom() -> FrameInput {
    let mut i = FrameInput::quiet();
    i.pointer = Some(Point::new(1, 2));
    i.zoom_factor = 1_250_000;
    i
}

#[test]
fn a_new_manager_is_idle() {
    let m = InputStateManager::new();
    assert_eq!(m.current_state, IDLE);
    assert!(!m.is_busy());
}

#[test]
fn the_default_manager_is_idle() {
    assert_eq!(InputStateManager::default().current_state, IDLE);
}

#[test]
fn make_busy_and_make_idle() {
    let mut m = InputStateManager::new();
    m.make_busy(BusyReason::Zoom);
    assert_eq!(m.current_state, ZOOM);
    assert!(m.is_busy());
    m.make_busy(BusyReason::LinkEdge);
    assert_eq!(m.current_state, LINK);
    m.make_idle();
    assert_eq!(m.current_state, IDLE);
    assert!(!m.is_busy());
}

#[test]
fn a_quiet_frame() {
    let q = FrameInput::quiet();
    assert_eq!(q.pointer, None);
    assert_eq!(q.zoom_factor, SCALE_UNIT);
    assert!(!q.has_pan_signal());
    assert!(!q.has_zoom_signal());
    assert!(!q.is_pressed());
    assert!(q.is_released());
    assert!(!q.cancel);
}

#[test]
fn signals_of_a_frame() {
    assert!(pan().has_pan_signal());
    let mut only_modifier = FrameInput::quiet();
    only_modifier.pan_modifier = true;
    assert!(!only_modifier.has_pan_signal());
    assert!(!hold().has_pan_signal());
    assert!(zoom().has_zoom_signal());
    let mut blind = zoom();
    blind.pointer = None;
    assert!(!blind.has_zoom_signal());
    assert!(press().is_pressed());
    assert!(!press().is_released());
    assert!(!hold().is_pressed());
    assert!(!hold().is_released());
    assert!(release().is_released());
    let mut click = press();
    click.primary_released = true;
    assert!(!click.is_pressed());
    assert!(click.is_released());
}

#[test]
fn the_node_under_the_pointer() {
    assert_eq!(Over::Canvas.get_node(), None);
    assert_eq!(Over::Body(NodeId::new(3, 0)).get_node(), Some(NodeId::new(3, 0)));
    assert_eq!(Over::Anchor(NodeId::new(4, 0)).get_node(), Some(NodeId::new(4, 0)));
}

#[test]
fn holding_the_button() {
    assert!(!IDLE.is_holding_button());
    assert!(!PAN.is_holding_button());
    assert!(!ZOOM.is_holding_button());
    assert!(SELECT.is_holding_button());
    assert!(LINK.is_holding_button());
}

#[test]
fn cancel_ends_every_gesture() {
    for state in [IDLE, PAN, ZOOM, SELECT, LINK] {
        for mut input in [FrameInput::quiet(), press(), hold(), release(), pan(), zoom()] {
            input.cancel = true;
            assert_eq!(at(state).decide(&input, hit(Over::Canvas)), IDLE);
        }
    }
}

#[test]
fn a_pan_signal_starts_a_pan_unless_the_button_is_taken() {
    for target in [None, hit(Over::Canvas), hit(Over::Anchor(NodeId::new(0, 0)))] {
        assert_eq!(at(IDLE).decide(&pan(), target), PAN);
        assert_eq!(at(PAN).decide(&pan(), target), PAN);
        assert_eq!(at(ZOOM).decide(&pan(), target), PAN);
        assert_eq!(at(SELECT).decide(&pan(), target), SELECT);
        assert_eq!(at(LINK).decide(&pan(), target), LINK);
    }
}

#[test]
fn a_scroll_without_a_zoom_is_a_pan() {
    let mut scroll = FrameInput::quiet();
    scroll.scroll_delta = Point::new(0, -3);
    assert!(scroll.has_scroll_signal());
    assert!(scroll.has_move_signal());
    assert!(!scroll.has_pan_signal());
    assert_eq!(at(IDLE).decide(&scroll, None), PAN);
    assert_eq!(at(PAN).decide(&scroll, None), PAN);
    assert_eq!(at(ZOOM).decide(&scroll, None), PAN);
    assert_eq!(at(SELECT).decide(&scroll, None), IDLE);
    let mut held = hold();
    held.scroll_delta = Point::new(5, 0);
    assert_eq!(at(SELECT).decide(&held, None), SELECT);
    assert_eq!(at(LINK).decide(&held, None), LINK);
    // with a zoom the scroll belongs to the zoom
    let mut both = zoom();
    both.scroll_delta = Point::new(5, 0);
    assert!(!both.has_scroll_signal());
    assert_eq!(at(IDLE).decide(&both, None), ZOOM);
    assert!(!FrameInput::quiet().has_scroll_signal());
    assert!(!FrameInput::quiet().has_move_signal());
    assert!(pan().has_move_signal());
}

#[test]
fn a_pan_comes_before_a_zoom() {
    let mut both = pan();
    both.zoom_factor = 2_000_000;
    assert_eq!(at(IDLE).decide(&both, None), PAN);
    assert_eq!(at(ZOOM).decide(&both, None), PAN);
    // a pan cannot break in, the zoom can
    assert_eq!(at(SELECT).decide(&both, None), ZOOM);
    assert_eq!(at(LINK).decide(&both, None), ZOOM);
}

#[test]
fn a_zoom_signal_starts_a_zoom_from_every_state() {
    for state in [IDLE, PAN, ZOOM, SELECT, LINK] {
        assert_eq!(at(state).decide(&zoom(), hit(Over::Canvas)), ZOOM);
    }
}

#[test]
fn a_zoom_without_a_pointer_is_no_signal() {
    let mut blind = zoom();
    blind.pointer = None;
    assert_eq!(at(IDLE).decide(&blind, None), IDLE);
    assert_eq!(at(ZOOM).decide(&blind, None), IDLE);
}

#[test]
fn pan_and_zoom_end_without_their_signal() {
    assert_eq!(at(PAN).decide(&FrameInput::quiet(), None), IDLE);
    assert_eq!(at(PAN).decide(&hold(), hit(Over::Canvas)), IDLE);
    assert_eq!(at(ZOOM).decide(&FrameInput::quiet(), None), IDLE);
    let mut only_modifier = FrameInput::quiet();
    only_modifier.pan_modifier = true;
    assert_eq!(at(PAN).decide(&only_modifier, None), IDLE);
}

#[test]
fn a_press_starts_the_gesture_of_its_target() {
    for state in [IDLE, PAN, ZOOM] {
        assert_eq!(at(state).decide(&press(), hit(Over::Canvas)), SELECT);
        assert_eq!(at(state).decide(&press(), hit(Over::Anchor(NodeId::new(2, 0)))), LINK);
        assert_eq!(at(state).decide(&press(), hit(Over::Body(NodeId::new(2, 0)))), IDLE);
        assert_eq!(at(state).decide(&press(), None), IDLE);
    }
}

#[test]
fn a_held_or_released_button_starts_nothing() {
    for target in [None, hit(Over::Canvas), hit(Over::Anchor(NodeId::new(0, 0)))] {
        assert_eq!(at(IDLE).decide(&hold(), target), IDLE);
        assert_eq!(at(IDLE).decide(&release(), target), IDLE);
        assert_eq!(at(IDLE).decide(&FrameInput::quiet(), target), IDLE);
        let mut click = press();
        click.primary_released = true;
        assert_eq!(at(IDLE).decide(&click, target), IDLE);
    }
}

#[test]
fn a_gesture_that_holds_the_button_lasts_until_the_button_is_up() {
    for state in [SELECT, LINK] {
        for target in [None, hit(Over::Canvas), hit(Over::Anchor(NodeId::new(0, 0)))] {
            assert_eq!(at(state).decide(&hold(), target), state);
            assert_eq!(at(state).decide(&press(), target), state);
            assert_eq!(at(state).decide(&release(), target), IDLE);
            assert_eq!(at(state).decide(&FrameInput::quiet(), target), IDLE);
        }
    }
}

#[test]
fn decide_does_not_take_the_step() {
    let m = at(IDLE);
    assert_eq!(m.decide(&zoom(), None), ZOOM);
    assert_eq!(m.current_state, IDLE);
}
