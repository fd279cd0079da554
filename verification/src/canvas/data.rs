//! The canvas widget: the graph, its view and the gesture in progress.

use vstd::prelude::*;
use crate::canvas::model::CanvasModel;
use crate::canvas::model::DragSelectRange;
use crate::graph::model::GraphModel;
use crate::graph::Graph;
use crate::input::state_manager::GestureState;
use crate::input::state_manager::InputStateManager;
use crate::transform::CanvasTransform;
use crate::transform::TransformModel;
use crate::transform::SCALE_UNIT;

verus! {

/// The canvas of a diagram. It is driven once per frame by `tick`, and read
/// between frames by whatever draws it.
pub struct CanvasWidget {
    pub graph: Graph,
    pub transform: CanvasTransform,
    pub input_manager: InputStateManager,
    /// The rectangle of the selection gesture in progress.
    pub drag_select_range: Option<DragSelectRange>,
}

impl View for CanvasWidget {
    type V = CanvasModel;

    open spec fn view(&self) -> CanvasModel {
        CanvasModel {
            state: self.input_manager.current_state,
            range: self.drag_select_range,
            graph: self.graph@,
            view: self.transform@,
        }
    }
}

impl Default for CanvasWidget {
    /// The empty canvas.
    fn default() -> (w: CanvasWidget)
        ensures
            w@.state == GestureState::Idle,
            w@.range is None,
            w@.graph == GraphModel::empty(),
            w@.view == (TransformModel { scale: SCALE_UNIT as int, dx: 0, dy: 0 }),
    {
        CanvasWidget::empty()
    }
}

impl CanvasWidget {
    /// A canvas at rest that shows the given graph through the given view.
    pub fn new(graph: Graph, transform: CanvasTransform) -> (w: CanvasWidget)
        ensures
            w@ == (CanvasModel {
                state: GestureState::Idle,
                range: None,
                graph: graph@,
                view: transform@,
            }),
    {
        CanvasWidget {
            graph,
            transform,
            input_manager: InputStateManager::new(),
            drag_select_range: None,
        }
    }

    /// An empty canvas at rest, shown at scale one.
    pub fn empty() -> (w: CanvasWidget)
        ensures
            w@.state == GestureState::Idle,
            w@.range is None,
            w@.graph == GraphModel::empty(),
            w@.graph.wf(),
            w@.view == (TransformModel { scale: SCALE_UNIT as int, dx: 0, dy: 0 }),
            w@.agrees(),
    {
        CanvasWidget::new(Graph::new(), CanvasTransform::identity())
    }
}

} // verus!
