//! What holds of every frame.

use vstd::prelude::*;
use crate::canvas::model::hits;
use crate::canvas::model::CanvasModel;
use crate::canvas::model::DragSelectRange;
use crate::geometry::lemma_spanned_symmetric;
use crate::geometry::Point;
use crate::graph::edge::EdgeId;
use crate::input::frame::FrameInput;
use crate::input::state_manager::BusyReason;
use crate::input::state_manager::GestureState;

verus! {

/// The state after a frame is the one that the gesture state machine gives
/// for the state before it, the input, and what lies under the pointer.
pub proof fn lemma_frame_follows_machine(m: CanvasModel, input: FrameInput, created: Option<EdgeId>)
    ensures
        m.frame_step(input, created).state == m.reconciled().state.next(input, m.target(input)),
{
}

/// After every frame the gesture state and what belongs to a gesture agree:
/// a rectangle exists only during a rectangle selection and an edge in the
/// making only during a link gesture. So at most one gesture is in progress,
/// and it alone holds anything.
pub proof fn lemma_frame_agrees(m: CanvasModel, input: FrameInput, created: Option<EdgeId>)
    ensures
        m.frame_step(input, created).agrees(),
{
}

/// An edge in the making does not outlive its link gesture: whenever a frame
/// leaves the canvas in another state than the link gesture, there is none,
/// whatever the canvas was before. At rest none is ever seen.
pub proof fn lemma_temp_edge_ends_with_gesture(
    m: CanvasModel,
    input: FrameInput,
    created: Option<EdgeId>,
)
    ensures
        m.frame_step(input, created).state != GestureState::Busy(BusyReason::LinkEdge)
            ==> m.frame_step(input, created).graph.temp_edge is None,
        m.frame_step(input, created).state == GestureState::Idle ==> m.frame_step(
            input,
            created,
        ).graph.temp_edge is None,
{
    lemma_frame_agrees(m, input, created);
}

/// A frame keeps the graph consistent, given that the identity of the edge
/// it adds is not in use.
pub proof fn lemma_frame_keeps_graph_sound(
    m: CanvasModel,
    input: FrameInput,
    created: Option<EdgeId>,
)
    requires
        m.graph.wf(),
        created matches Some(id) ==> id.index < u32::MAX && !m.graph.edges.dom().contains(
            id.index as int,
        ),
    ensures
        m.frame_step(input, created).graph.wf(),
{
}

/// One frame acts for one gesture. The nodes stay as they are, and no
/// identity is handed out or comes back. The view
/// changes only in a pan or a zoom, the rectangle selection only in a
/// rectangle selection, the edges only at the end of a link gesture, where
/// exactly the edge of `frame_edge` is added.
pub proof fn lemma_frame_acts_once(m: CanvasModel, input: FrameInput, created: Option<EdgeId>)
    ensures
        ({
            let r = m.frame_step(input, created);
            &&& r.graph.nodes == m.graph.nodes
            &&& r.graph.generations == m.graph.generations
            &&& r.graph.issued == m.graph.issued
            &&& r.graph.edge_type == m.graph.edge_type
            &&& r.view != m.view ==> r.state == GestureState::Busy(BusyReason::Pan) || r.state
                == GestureState::Busy(BusyReason::Zoom)
            &&& r.graph.selection != m.graph.selection ==> r.state == GestureState::Busy(
                BusyReason::DragSelect,
            )
            &&& match (m.frame_edge(input), created) {
                (Some(edge), Some(id)) => r.graph.edges == m.graph.edges.insert(
                    id.index as int,
                    edge.link(),
                ),
                _ => r.graph.edges == m.graph.edges,
            }
        }),
{
}

/// The direction of the drag does not matter: a rectangle dragged from one
/// corner to the opposite one selects the same nodes as the rectangle
/// dragged back.
pub proof fn lemma_selection_ignores_direction(m: CanvasModel, a: Point, b: Point)
    ensures
        m.selecting(DragSelectRange { anchor: a, current: b }).graph.selection == m.selecting(
            DragSelectRange { anchor: b, current: a },
        ).graph.selection,
        hits(m.graph, m.view, (DragSelectRange { anchor: a, current: b }).rect()) == hits(
            m.graph,
            m.view,
            (DragSelectRange { anchor: b, current: a }).rect(),
        ),
{
    lemma_spanned_symmetric(a, b);
}

/// Two drags that span the same rectangle select the same nodes, whichever
/// corners they began and ended at.
pub proof fn lemma_selection_depends_on_rect(m: CanvasModel, r: DragSelectRange, s: DragSelectRange)
    requires
        r.rect() == s.rect(),
    ensures
        m.selecting(r).graph.selection == m.selecting(s).graph.selection,
{
}

} // verus!
