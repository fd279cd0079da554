//! What the windowing layer reports once per frame, in screen space.

use vstd::prelude::*;
use crate::geometry::Point;
use crate::graph::node::NodeId;
use crate::transform::SCALE_UNIT;

verus! {

/// The raw signals of one frame.
#[derive(Clone, Copy, Debug, PartialEq, Eq, Structural)]
pub struct FrameInput {
    /// Where the pointer is, if it is over the canvas.
    pub pointer: Option<Point>,
    /// How far the pointer moved since the last frame.
    pub pointer_delta: Point,
    /// The primary button went down in this frame.
    pub primary_pressed: bool,
    /// The primary button is held.
    pub primary_down: bool,
    /// The primary button went up in this frame.
    pub primary_released: bool,
    /// The key that turns a drag into a pan is held.
    pub pan_modifier: bool,
    /// The smooth scroll of this frame.
    pub scroll_delta: Point,
    /// The zoom of this frame in millionths; `SCALE_UNIT` where there is
    /// none.
    pub zoom_factor: u32,
    /// The gesture in progress is to be dropped, as when the window loses
    /// the focus.
    pub cancel: bool,
}

impl FrameInput {
    /// A frame in which nothing happens.
    pub fn quiet() -> (input: FrameInput)
        ensures
            input == (FrameInput {
                pointer: None,
                pointer_delta: Point { x: 0, y: 0 },
                primary_pressed: false,
                primary_down: false,
                primary_released: false,
                pan_modifier: false,
                scroll_delta: Point { x: 0, y: 0 },
                zoom_factor: SCALE_UNIT,
                cancel: false,
            }),
    {
        FrameInput {
            pointer: None,
            pointer_delta: Point { x: 0, y: 0 },
            primary_pressed: false,
            primary_down: false,
            primary_released: false,
            pan_modifier: false,
            scroll_delta: Point { x: 0, y: 0 },
            zoom_factor: SCALE_UNIT,
            cancel: false,
        }
    }

    /// The frame asks for a pan by dragging: the modifier is held with the
    /// button down.
    pub open spec fn pan_signal(self) -> bool {
        self.pan_modifier && self.primary_down
    }

    /// The frame asks for a pan by scrolling: there is a scroll, and no zoom
    /// to take it along.
    pub open spec fn scroll_signal(self) -> bool {
        (self.scroll_delta.x != 0 || self.scroll_delta.y != 0) && !self.zoom_signal()
    }

    /// The frame asks for the view to be moved, by a drag or by a scroll.
    pub open spec fn move_signal(self) -> bool {
        self.pan_signal() || self.scroll_signal()
    }

    /// The frame asks for a zoom: the factor is not one, and there is a
    /// pointer to zoom about. A zoom without a pointer is no signal.
    pub open spec fn zoom_signal(self) -> bool {
        self.zoom_factor != SCALE_UNIT && self.pointer is Some
    }

    /// The button is up at the end of the frame.
    pub open spec fn released(self) -> bool {
        self.primary_released || !self.primary_down
    }

    /// The button went down in this frame and is still held.
    pub open spec fn pressed(self) -> bool {
        self.primary_pressed && !self.released()
    }

    pub fn has_pan_signal(&self) -> (b: bool)
        ensures
            b == self.pan_signal(),
    {
        self.pan_modifier && self.primary_down
    }

    pub fn has_scroll_signal(&self) -> (b: bool)
        ensures
            b == self.scroll_signal(),
    {
        (self.scroll_delta.x != 0 || self.scroll_delta.y != 0) && !self.has_zoom_signal()
    }

    pub fn has_move_signal(&self) -> (b: bool)
        ensures
            b == self.move_signal(),
    {
        self.has_pan_signal() || self.has_scroll_signal()
    }

    pub fn has_zoom_signal(&self) -> (b: bool)
        ensures
            b == self.zoom_signal(),
    {
        self.zoom_factor != SCALE_UNIT && self.pointer.is_some()
    }

    pub fn is_released(&self) -> (b: bool)
        ensures
            b == self.released(),
    {
        self.primary_released || !self.primary_down
    }

    pub fn is_pressed(&self) -> (b: bool)
        ensures
            b == self.pressed(),
    {
        self.primary_pressed && !self.primary_released && self.primary_down
    }
}

/// What lies under the pointer.
#[derive(Clone, Copy, Debug, PartialEq, Eq, Structural)]
pub enum Over {
    /// No node.
    Canvas,
    /// A node, outside its link region.
    Body(NodeId),
    /// The link region of a node.
    Anchor(NodeId),
}

impl Over {
    /// The node under the pointer, if any.
    pub open spec fn node(self) -> Option<NodeId> {
        match self {
            Over::Canvas => None,
            Over::Body(id) => Some(id),
            Over::Anchor(id) => Some(id),
        }
    }

    pub fn get_node(&self) -> (r: Option<NodeId>)
        ensures
            r == self.node(),
    {
        match self {
            Over::Canvas => None,
            Over::Body(id) => Some(*id),
            Over::Anchor(id) => Some(*id),
        }
    }
}

/// The pointer of a frame, placed on the canvas.
#[derive(Clone, Copy, Debug, PartialEq, Eq, Structural)]
pub struct Hit {
    /// The pointer in screen space.
    pub screen: Point,
    /// The pointer in canvas space.
    pub canvas: Point,
    pub over: Over,
}

} // verus!
