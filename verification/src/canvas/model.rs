//! What a frame does to the canvas, as mathematics.
//!
//! The canvas is the gesture state, the rectangle being dragged, the graph
//! and the view transform. Each gesture has a step that tells what one frame
//! of input makes of the canvas; the step of a whole frame applies them in
//! the order of their rank.

use vstd::prelude::*;
use crate::geometry::Point;
use crate::geometry::Rect;
use crate::graph::edge::Edge;
use crate::graph::edge::EdgeId;
use crate::graph::model::GraphModel;
use crate::graph::node::Node;
use crate::graph::node::NodeId;
use crate::graph::temp_edge::TempEdge;
use crate::input::frame::FrameInput;
use crate::input::frame::Hit;
use crate::input::frame::Over;
use crate::input::state_manager::BusyReason;
use crate::input::state_manager::GestureState;
use crate::transform::TransformModel;

verus! {

/// The rectangle that a selection gesture drags out, in screen space: the
/// point where it began and the point where the pointer is.
#[derive(Clone, Copy, Debug, PartialEq, Eq, Structural)]
pub struct DragSelectRange {
    pub anchor: Point,
    pub current: Point,
}

impl DragSelectRange {
    /// The rectangle between the two points, whichever way it was dragged.
    pub open spec fn rect(self) -> Rect {
        Rect::spanned(self.anchor, self.current)
    }

    pub fn to_rect(&self) -> (r: Rect)
        ensures
            r == self.rect(),
            r.wf(),
    {
        Rect::from_corners(self.anchor, self.current)
    }
}

/// The canvas between two frames.
pub struct CanvasModel {
    pub state: GestureState,
    pub range: Option<DragSelectRange>,
    pub graph: GraphModel,
    pub view: TransformModel,
}

/// The box of the node holds the canvas point.
pub open spec fn covers(node: Node, c: Point) -> bool {
    node.has_frame() && node.frame().holds(c)
}

/// The graph has the node, and its box holds the canvas point.
pub open spec fn node_covers(g: GraphModel, id: NodeId, c: Point) -> bool {
    g.has_node(id) && covers(g.nodes[id.index as int], c)
}

/// The node holds the canvas point, and no node with a larger index does:
/// of the nodes that overlap there, the one in the highest slot of the node
/// table is on top.
pub open spec fn is_top(g: GraphModel, c: Point, id: NodeId) -> bool {
    &&& node_covers(g, id, c)
    &&& forall|other: NodeId| #[trigger] node_covers(g, other, c) ==> other.index <= id.index
}

/// The node on top at a canvas point.
pub open spec fn top_node_at(g: GraphModel, c: Point) -> Option<NodeId> {
    if exists|id: NodeId| is_top(g, c, id) {
        Some(choose|id: NodeId| is_top(g, c, id))
    } else {
        None
    }
}

/// What lies at a canvas point.
pub open spec fn over_at(g: GraphModel, c: Point) -> Over {
    match top_node_at(g, c) {
        None => Over::Canvas,
        Some(id) => if g.nodes[id.index as int].link_region().holds(c) {
            Over::Anchor(id)
        } else {
            Over::Body(id)
        },
    }
}

/// The pointer placed on the canvas; `None` without a pointer, and where its
/// canvas position cannot be stored.
pub open spec fn located(g: GraphModel, view: TransformModel, pointer: Option<Point>) -> Option<
    Hit,
> {
    match pointer {
        None => None,
        Some(p) => match view.canvas_point(p) {
            None => None,
            Some(c) => Some(Hit { screen: p, canvas: c, over: over_at(g, c) }),
        },
    }
}

/// The box of the node, as shown on screen, shares a point with the
/// rectangle.
pub open spec fn shows_in(node: Node, view: TransformModel, rect: Rect) -> bool {
    node.has_frame() && (view.screen_rect(node.frame()) matches Some(shown) && shown.meets(rect))
}

/// The nodes that a screen rectangle selects.
pub open spec fn hits(g: GraphModel, view: TransformModel, rect: Rect) -> Set<NodeId> {
    Set::new(|id: NodeId| g.has_node(id) && shows_in(g.nodes[id.index as int], view, rect))
}

/// The view after a move, if the move can be stored; else the view as it
/// was.
pub open spec fn moved_or_same(view: TransformModel, delta: Point) -> TransformModel {
    if view.moved(delta.x as int, delta.y as int).fits() {
        view.moved(delta.x as int, delta.y as int)
    } else {
        view
    }
}

/// The view after an anchored zoom, if that can be stored; else the view as
/// it was.
pub open spec fn zoomed_or_same(view: TransformModel, p: Point, zoom: u32, pan: Point)
    -> TransformModel {
    let z = view.zoomed(p.x as int, p.y as int, zoom as int, pan.x as int, pan.y as int);
    if z.fits() {
        z
    } else {
        view
    }
}

/// The edge that the end of a link gesture adds: from the source of the
/// edge in the making to the node under the pointer, if that is another
/// node and the graph takes the edge.
pub open spec fn link_edge(g: GraphModel, temp: TempEdge, target: Option<Hit>) -> Option<Edge> {
    match target {
        Some(hit) => match hit.over.node() {
            Some(t) => {
                let edge = Edge { source: temp.source, target: t, edge_type: g.edge_type };
                if t != temp.source && g.edge_refusal(edge) is None {
                    Some(edge)
                } else {
                    None
                }
            },
            None => None,
        },
        None => None,
    }
}

impl CanvasModel {
    /// The gesture state and what belongs to a gesture agree: there is a
    /// rectangle exactly during a rectangle selection, and an edge in the
    /// making exactly during a link gesture.
    pub open spec fn agrees(self) -> bool {
        &&& self.range is Some <==> self.state == GestureState::Busy(BusyReason::DragSelect)
        &&& self.graph.temp_edge is Some <==> self.state == GestureState::Busy(
            BusyReason::LinkEdge,
        )
    }

    /// The canvas brought to agreement: a gesture that has lost what belongs
    /// to it has ended, and what belongs to no gesture in progress is
    /// dropped.
    pub open spec fn reconciled(self) -> CanvasModel {
        let lost = (self.state == GestureState::Busy(BusyReason::DragSelect) && self.range is None)
            || (self.state == GestureState::Busy(BusyReason::LinkEdge) && self.graph.temp_edge
            is None);
        let state = if lost {
            GestureState::Idle
        } else {
            self.state
        };
        CanvasModel {
            state,
            range: if state == GestureState::Busy(BusyReason::DragSelect) {
                self.range
            } else {
                None
            },
            graph: if state == GestureState::Busy(BusyReason::LinkEdge) {
                self.graph
            } else {
                self.graph.with_temp_edge(None)
            },
            view: self.view,
        }
    }

    /// The canvas with the gesture in progress dropped: nothing of it is
    /// committed.
    pub open spec fn abandoned(self) -> CanvasModel {
        CanvasModel {
            state: GestureState::Idle,
            range: None,
            graph: self.graph.with_temp_edge(None),
            view: self.view,
        }
    }

    /// The pan of a frame. A drag with the modifier, or a scroll without a
    /// zoom, starts or renews the pan, unless a gesture that holds the
    /// button is in progress: the drag moves the view by the motion of the
    /// pointer, the scroll moves it by the scroll, and where both come in
    /// one frame the view is moved by the one after the other. Without
    /// either a pan in progress ends.
    pub open spec fn pan_step(self, input: FrameInput) -> CanvasModel {
        if input.move_signal() && !self.state.holds_button() {
            let dragged = if input.pan_signal() {
                moved_or_same(self.view, input.pointer_delta)
            } else {
                self.view
            };
            CanvasModel {
                state: GestureState::Busy(BusyReason::Pan),
                view: if input.scroll_signal() {
                    moved_or_same(dragged, input.scroll_delta)
                } else {
                    dragged
                },
                ..self
            }
        } else if self.state == GestureState::Busy(BusyReason::Pan) {
            CanvasModel { state: GestureState::Idle, ..self }
        } else {
            self
        }
    }

    /// The zoom of a frame. During a pan nothing happens. Else a zoom signal
    /// starts or renews the zoom: the view is zoomed about the pointer and
    /// moved by the scroll, and a rectangle or an edge in the making is
    /// dropped. Without the signal a zoom in progress ends.
    pub open spec fn zoom_step(self, input: FrameInput) -> CanvasModel {
        if self.state == GestureState::Busy(BusyReason::Pan) {
            self
        } else if input.zoom_signal() {
            CanvasModel {
                state: GestureState::Busy(BusyReason::Zoom),
                range: None,
                graph: self.graph.with_temp_edge(None),
                view: zoomed_or_same(
                    self.view,
                    input.pointer->Some_0,
                    input.zoom_factor,
                    input.scroll_delta,
                ),
            }
        } else if self.state == GestureState::Busy(BusyReason::Zoom) {
            CanvasModel { state: GestureState::Idle, ..self }
        } else {
            self
        }
    }

    /// The canvas with the rectangle set and the rectangle selection
    /// replaced by the nodes that the rectangle meets on screen.
    pub open spec fn selecting(self, range: DragSelectRange) -> CanvasModel {
        CanvasModel {
            range: Some(range),
            graph: self.graph.with_selection(hits(self.graph, self.view, range.rect())),
            ..self
        }
    }

    /// The rectangle selection of a frame. From rest, a press over the
    /// empty canvas starts it: the rectangle is the point of the pointer,
    /// and the click selection is given up. While it lasts, the rectangle
    /// follows the pointer and the nodes it meets are selected. When the
    /// button is up it ends: the rectangle goes, the selection stays.
    pub open spec fn select_step(self, input: FrameInput, target: Option<Hit>) -> CanvasModel {
        match self.state {
            GestureState::Busy(BusyReason::DragSelect) => match self.range {
                None => CanvasModel { state: GestureState::Idle, ..self },
                Some(range) => if input.released() {
                    CanvasModel { state: GestureState::Idle, range: None, ..self }
                } else {
                    self.selecting(
                        DragSelectRange {
                            anchor: range.anchor,
                            current: match input.pointer {
                                Some(p) => p,
                                None => range.current,
                            },
                        },
                    )
                },
            },
            GestureState::Idle => match target {
                Some(hit) => if input.pressed() && hit.over == Over::Canvas {
                    (CanvasModel {
                        state: GestureState::Busy(BusyReason::DragSelect),
                        graph: self.graph.with_selected(None),
                        ..self
                    }).selecting(DragSelectRange { anchor: hit.screen, current: hit.screen })
                } else {
                    self
                },
                None => self,
            },
            _ => self,
        }
    }

    /// The link gesture of a frame. From rest, a press over the link region
    /// of a node starts it with an edge in the making from that node to the
    /// pointer. While it lasts, the edge in the making follows the pointer.
    /// When the button is up it ends: the edge in the making goes, and the
    /// edge of `link_edge`, if there is one, is added under the identity
    /// `created`.
    pub open spec fn link_step(self, input: FrameInput, target: Option<Hit>, created: Option<EdgeId>)
        -> CanvasModel {
        match self.state {
            GestureState::Busy(BusyReason::LinkEdge) => match self.graph.temp_edge {
                None => CanvasModel { state: GestureState::Idle, ..self },
                Some(temp) => if input.released() {
                    CanvasModel {
                        state: GestureState::Idle,
                        graph: (match (link_edge(self.graph, temp, target), created) {
                            (Some(edge), Some(id)) => self.graph.with_edge(id, edge),
                            _ => self.graph,
                        }).with_temp_edge(None),
                        ..self
                    }
                } else {
                    CanvasModel {
                        graph: self.graph.with_temp_edge(
                            Some(
                                TempEdge {
                                    source: temp.source,
                                    target: match target {
                                        Some(hit) => hit.canvas,
                                        None => temp.target,
                                    },
                                },
                            ),
                        ),
                        ..self
                    }
                },
            },
            GestureState::Idle => match target {
                Some(hit) => match hit.over {
                    Over::Anchor(source) => if input.pressed() {
                        CanvasModel {
                            state: GestureState::Busy(BusyReason::LinkEdge),
                            graph: self.graph.with_temp_edge(
                                Some(TempEdge { source, target: hit.canvas }),
                            ),
                            ..self
                        }
                    } else {
                        self
                    },
                    _ => self,
                },
                None => self,
            },
            _ => self,
        }
    }

    /// The click of a frame: from rest, a press over a node outside its link
    /// region selects the node.
    pub open spec fn pick_step(self, input: FrameInput, target: Option<Hit>) -> CanvasModel {
        match (self.state, target) {
            (GestureState::Idle, Some(hit)) => match hit.over {
                Over::Body(id) => if input.pressed() {
                    CanvasModel { graph: self.graph.with_selected(Some(id)), ..self }
                } else {
                    self
                },
                _ => self,
            },
            _ => self,
        }
    }

    /// Where the pointer of a frame is, on the canvas as the frame finds it.
    pub open spec fn target(self, input: FrameInput) -> Option<Hit> {
        located(self.graph, self.view, input.pointer)
    }

    /// The canvas after a frame. A request to cancel drops the gesture in
    /// progress. Else the canvas is brought to agreement and the gestures
    /// take their steps by rank: pan, zoom, rectangle selection, link, and
    /// last the click. `created` is the identity of the edge that the frame
    /// adds, if it adds one.
    pub open spec fn frame_step(self, input: FrameInput, created: Option<EdgeId>) -> CanvasModel {
        if input.cancel {
            self.abandoned()
        } else {
            let target = self.target(input);
            self.reconciled().pan_step(input).zoom_step(input).select_step(input, target).link_step(
                input,
                target,
                created,
            ).pick_step(input, target)
        }
    }

    /// The edge that a frame adds, if it adds one: the frame ends a link
    /// gesture over another node, and the graph takes the edge.
    pub open spec fn frame_edge(self, input: FrameInput) -> Option<Edge> {
        let m = self.reconciled();
        if !input.cancel && !input.zoom_signal() && input.released() && m.state
            == GestureState::Busy(BusyReason::LinkEdge) {
            link_edge(m.graph, m.graph.temp_edge->Some_0, self.target(input))
        } else {
            None
        }
    }
}

} // verus!
