//! The gesture state machine. It reads each frame as at most one gesture:
//! a pan, a zoom, a rectangle selection or the drawing of a link.

use vstd::prelude::*;
use crate::input::frame::FrameInput;
use crate::input::frame::Hit;
use crate::input::frame::Over;

verus! {

/// The gesture that keeps the canvas busy, from the first in rank to the
/// last.
#[derive(Clone, Copy, Debug, PartialEq, Eq, Structural)]
pub enum BusyReason {
    Pan,
    Zoom,
    DragSelect,
    LinkEdge,
}

#[derive(Clone, Copy, Debug, PartialEq, Eq, Structural)]
pub enum GestureState {
    Idle,
    Busy(BusyReason),
}

impl GestureState {
    /// The gesture `reason` is the one in progress.
    pub open spec fn busy_with(self, reason: BusyReason) -> bool {
        self == GestureState::Busy(reason)
    }

    /// The gesture in progress lasts as long as the button is held: a
    /// rectangle selection or a link. A pan does not break into it.
    pub open spec fn holds_button(self) -> bool {
        self == GestureState::Busy(BusyReason::DragSelect) || self == GestureState::Busy(
            BusyReason::LinkEdge,
        )
    }

    pub fn is_holding_button(&self) -> (b: bool)
        ensures
            b == self.holds_button(),
    {
        match self {
            GestureState::Busy(BusyReason::DragSelect) => true,
            GestureState::Busy(BusyReason::LinkEdge) => true,
            _ => false,
        }
    }

    /// The state after a frame.
    ///
    /// A request to cancel ends whatever is in progress. Else the gestures
    /// are tried by rank. A pan, by a drag with the modifier or by a scroll
    /// without a zoom, takes the frame unless a gesture that holds the
    /// button is in progress. Next, a zoom takes the frame, and a
    /// gesture that it breaks into is dropped. Without either, a gesture
    /// that holds the button goes on until the button is up; and from rest,
    /// or after a pan or a zoom that this frame does not renew, a press
    /// over the empty canvas starts a rectangle selection and a press over
    /// the link region of a node starts a link.
    pub open spec fn next(self, input: FrameInput, target: Option<Hit>) -> GestureState {
        if input.cancel {
            GestureState::Idle
        } else if input.move_signal() && !self.holds_button() {
            GestureState::Busy(BusyReason::Pan)
        } else if input.zoom_signal() {
            GestureState::Busy(BusyReason::Zoom)
        } else if self.holds_button() {
            if input.released() {
                GestureState::Idle
            } else {
                self
            }
        } else if input.pressed() {
            match target {
                Some(hit) => match hit.over {
                    Over::Canvas => GestureState::Busy(BusyReason::DragSelect),
                    Over::Anchor(_) => GestureState::Busy(BusyReason::LinkEdge),
                    Over::Body(_) => GestureState::Idle,
                },
                None => GestureState::Idle,
            }
        } else {
            GestureState::Idle
        }
    }
}

/// No two gestures are in progress at once.
pub proof fn lemma_one_gesture_at_a_time(state: GestureState, a: BusyReason, b: BusyReason)
    requires
        state.busy_with(a),
        state.busy_with(b),
    ensures
        a == b,
{
}

/// Holds the state of the gesture state machine between frames.
#[derive(Clone, Copy, Debug)]
pub struct InputStateManager {
    pub current_state: GestureState,
}

impl Default for InputStateManager {
    /// A manager at rest.
    fn default() -> (m: InputStateManager)
        ensures
            m.current_state == GestureState::Idle,
    {
        InputStateManager::new()
    }
}

impl InputStateManager {
    /// A manager at rest.
    pub fn new() -> (m: InputStateManager)
        ensures
            m.current_state == GestureState::Idle,
    {
        InputStateManager { current_state: GestureState::Idle }
    }

    pub fn is_busy(&self) -> (busy: bool)
        ensures
            busy == (self.current_state != GestureState::Idle),
    {
        match self.current_state {
            GestureState::Idle => false,
            GestureState::Busy(_) => true,
        }
    }

    pub fn make_busy(&mut self, reason: BusyReason)
        ensures
            final(self).current_state == GestureState::Busy(reason),
    {
        self.current_state = GestureState::Busy(reason);
    }

    pub fn make_idle(&mut self)
        ensures
            final(self).current_state == GestureState::Idle,
    {
        self.current_state = GestureState::Idle;
    }

    /// The state that the frame leads to, without taking it.
    pub fn decide(&self, input: &FrameInput, target: Option<Hit>) -> (next: GestureState)
        ensures
            next == self.current_state.next(*input, target),
    {
        if input.cancel {
            GestureState::Idle
        } else if input.has_move_signal() && !self.current_state.is_holding_button() {
            GestureState::Busy(BusyReason::Pan)
        } else if input.has_zoom_signal() {
            GestureState::Busy(BusyReason::Zoom)
        } else if self.current_state.is_holding_button() {
            if input.is_released() {
                GestureState::Idle
            } else {
                self.current_state
            }
        } else if input.is_pressed() {
            match target {
                Some(hit) => match hit.over {
                    Over::Canvas => GestureState::Busy(BusyReason::DragSelect),
                    Over::Anchor(_) => GestureState::Busy(BusyReason::LinkEdge),
                    Over::Body(_) => GestureState::Idle,
                },
                None => GestureState::Idle,
            }
        } else {
            GestureState::Idle
        }
    }
}

} // verus!
