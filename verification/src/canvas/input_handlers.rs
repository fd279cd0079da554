//! The steps that one frame of input takes on the canvas.

use vstd::prelude::*;
use crate::canvas::data::CanvasWidget;
use crate::canvas::hit_test::locate;
use crate::canvas::model::link_edge;
use crate::canvas::model::DragSelectRange;
use crate::canvas::selection::select_hits;
use crate::graph::edge::Edge;
use crate::graph::edge::EdgeId;
use crate::graph::temp_edge::TempEdge;
use crate::input::frame::FrameInput;
use crate::input::frame::Hit;
use crate::input::frame::Over;
use crate::input::state_manager::BusyReason;
use crate::input::state_manager::GestureState;

verus! {

impl CanvasWidget {
    /// Drops the gesture in progress without committing anything of it.
    pub fn abandon(&mut self)
        ensures
            final(self)@ == old(self)@.abandoned(),
    {
        self.input_manager.make_idle();
        self.drag_select_range = None;
        self.graph.set_temp_edge(None);
    }

    /// Brings the gesture state and what belongs to a gesture to agreement.
    pub fn reconcile(&mut self)
        ensures
            final(self)@ == old(self)@.reconciled(),
            final(self)@.agrees(),
    {
        match self.input_manager.current_state {
            GestureState::Busy(BusyReason::DragSelect) => {
                if self.drag_select_range.is_none() {
                    self.input_manager.make_idle();
                }
                self.graph.set_temp_edge(None);
            },
            GestureState::Busy(BusyReason::LinkEdge) => {
                if self.graph.get_temp_edge().is_none() {
                    self.input_manager.make_idle();
                }
                self.drag_select_range = None;
            },
            _ => {
                self.drag_select_range = None;
                self.graph.set_temp_edge(None);
            },
        }
    }

    /// The pan of a frame.
    pub fn handle_pan(&mut self, input: &FrameInput)
        ensures
            final(self)@ == old(self)@.pan_step(*input),
    {
        if input.has_move_signal() && !self.input_manager.current_state.is_holding_button() {
            self.input_manager.make_busy(BusyReason::Pan);
            if input.has_pan_signal() {
                self.transform.translate_by(input.pointer_delta);
            }
            if input.has_scroll_signal() {
                self.transform.translate_by(input.scroll_delta);
            }
        } else {
            match self.input_manager.current_state {
                GestureState::Busy(BusyReason::Pan) => {
                    self.input_manager.make_idle();
                },
                _ => {},
            }
        }
    }

    /// The zoom of a frame.
    pub fn handle_scale(&mut self, input: &FrameInput)
        ensures
            final(self)@ == old(self)@.zoom_step(*input),
    {
        match self.input_manager.current_state {
            GestureState::Busy(BusyReason::Pan) => {},
            state => {
                match input.pointer {
                    Some(pointer) if input.has_zoom_signal() => {
                        self.input_manager.make_busy(BusyReason::Zoom);
                        self.drag_select_range = None;
                        self.graph.set_temp_edge(None);
                        self.transform.zoom_at(pointer, input.zoom_factor, input.scroll_delta);
                    },
                    _ => {
                        match state {
                            GestureState::Busy(BusyReason::Zoom) => {
                                self.input_manager.make_idle();
                            },
                            _ => {},
                        }
                    },
                }
            },
        }
    }

    /// Sets the rectangle and selects the nodes that it meets on screen.
    fn select_in(&mut self, range: DragSelectRange)
        ensures
            final(self)@ == old(self)@.selecting(range),
            old(self)@.graph.wf() ==> final(self)@.graph.wf(),
    {
        let rect = range.to_rect();
        let picked = select_hits(&self.graph, &self.transform, &rect);
        self.drag_select_range = Some(range);
        self.graph.set_selection(picked);
        proof {
            assert(self@.graph.selection =~= old(self)@.selecting(range).graph.selection);
        }
    }

    /// The rectangle selection of a frame.
    pub fn handle_drag_select(&mut self, input: &FrameInput, target: Option<Hit>)
        ensures
            final(self)@ == old(self)@.select_step(*input, target),
            old(self)@.graph.wf() ==> final(self)@.graph.wf(),
    {
        match self.input_manager.current_state {
            GestureState::Busy(BusyReason::DragSelect) => {
                match self.drag_select_range {
                    None => {
                        self.input_manager.make_idle();
                    },
                    Some(range) => {
                        if input.is_released() {
                            self.input_manager.make_idle();
                            self.drag_select_range = None;
                        } else {
                            let current = match input.pointer {
                                Some(p) => p,
                                None => range.current,
                            };
                            self.select_in(DragSelectRange { anchor: range.anchor, current });
                        }
                    },
                }
            },
            GestureState::Idle => {
                match target {
                    Some(hit) => {
                        let on_canvas: bool = match hit.over {
                            Over::Canvas => true,
                            _ => false,
                        };
                        if input.is_pressed() && on_canvas {
                            self.input_manager.make_busy(BusyReason::DragSelect);
                            self.graph.set_selected_node(None);
                            self.select_in(
                                DragSelectRange { anchor: hit.screen, current: hit.screen },
                            );
                        }
                    },
                    None => {},
                }
            },
            _ => {},
        }
    }

    /// The edge that the end of a link gesture is to add, if any.
    fn edge_to_commit(&self, temp: TempEdge, target: Option<Hit>) -> (r: Option<Edge>)
        ensures
            r == link_edge(self@.graph, temp, target),
    {
        match target {
            Some(hit) => match hit.over.get_node() {
                Some(t) => {
                    let edge = Edge::new(temp.source, t, self.graph.edge_type());
                    let same: bool = t.index == temp.source.index && t.generation
                        == temp.source.generation;
                    if !same && self.graph.contains_node(edge.source)
                        && self.graph.contains_node(edge.target) && self.graph.edge_count()
                        < u32::MAX as usize {
                        Some(edge)
                    } else {
                        None
                    }
                },
                None => None,
            },
            None => None,
        }
    }

    /// The link gesture of a frame. Returns the identity of the edge that
    /// the frame added, if it added one.
    pub fn handle_link(&mut self, input: &FrameInput, target: Option<Hit>) -> (created: Option<
        EdgeId,
    >)
        ensures
            final(self)@ == old(self)@.link_step(*input, target, created),
            created is Some <==> old(self)@.state == GestureState::Busy(BusyReason::LinkEdge)
                && old(self)@.graph.temp_edge is Some && input.released() && link_edge(
                old(self)@.graph,
                old(self)@.graph.temp_edge->Some_0,
                target,
            ) is Some,
            created matches Some(id) ==> id.index < u32::MAX && !old(
                self,
            )@.graph.edges.dom().contains(id.index as int),
            old(self)@.graph.wf() ==> final(self)@.graph.wf(),
    {
        match self.input_manager.current_state {
            GestureState::Busy(BusyReason::LinkEdge) => {
                match self.graph.get_temp_edge() {
                    None => {
                        self.input_manager.make_idle();
                        None
                    },
                    Some(temp) => {
                        if input.is_released() {
                            self.input_manager.make_idle();
                            let created = match self.edge_to_commit(temp, target) {
                                Some(edge) => match self.graph.add_edge(edge) {
                                    Ok(id) => Some(id),
                                    Err(_) => None,
                                },
                                None => None,
                            };
                            self.graph.set_temp_edge(None);
                            created
                        } else {
                            let at = match target {
                                Some(hit) => hit.canvas,
                                None => temp.target,
                            };
                            self.graph.set_temp_edge(Some(TempEdge::new(temp.source, at)));
                            None
                        }
                    },
                }
            },
            GestureState::Idle => {
                match target {
                    Some(hit) => match hit.over {
                        Over::Anchor(source) => {
                            if input.is_pressed() {
                                self.input_manager.make_busy(BusyReason::LinkEdge);
                                self.graph.set_temp_edge(Some(TempEdge::new(source, hit.canvas)));
                            }
                            None
                        },
                        _ => None,
                    },
                    None => None,
                }
            },
            _ => None,
        }
    }

    /// Takes one frame of input: the one call per frame that drives the
    /// canvas. Returns the identity of the edge that the frame added, if it
    /// added one.
    ///
    /// The state after the frame is the one the gesture state machine gives
    /// (`GestureState::next`), and the gesture state and what belongs to a
    /// gesture agree afterwards.
    pub fn tick(&mut self, input: &FrameInput) -> (created: Option<EdgeId>)
        ensures
            final(self)@ == old(self)@.frame_step(*input, created),
            created is Some <==> old(self)@.frame_edge(*input) is Some,
            created matches Some(id) ==> id.index < u32::MAX && !old(
                self,
            )@.graph.edges.dom().contains(id.index as int),
            final(self)@.state == old(self)@.reconciled().state.next(
                *input,
                old(self)@.target(*input),
            ),
            final(self)@.agrees(),
            old(self)@.graph.wf() ==> final(self)@.graph.wf(),
    {
        if input.cancel {
            self.abandon();
            return None;
        }
        let target = locate(&self.graph, &self.transform, input.pointer);
        self.reconcile();
        self.handle_pan(input);
        self.handle_scale(input);
        self.handle_drag_select(input, target);
        let created = self.handle_link(input, target);
        self.handle_pick(input, target);
        created
    }

    /// The click of a frame.
    pub fn handle_pick(&mut self, input: &FrameInput, target: Option<Hit>)
        ensures
            final(self)@ == old(self)@.pick_step(*input, target),
            old(self)@.graph.wf() ==> final(self)@.graph.wf(),
    {
        match (self.input_manager.current_state, target) {
            (GestureState::Idle, Some(hit)) => match hit.over {
                Over::Body(id) => {
                    if input.is_pressed() {
                        self.graph.set_selected_node(Some(id));
                    }
                },
                _ => {},
            },
            _ => {},
        }
    }
}

} // verus!
