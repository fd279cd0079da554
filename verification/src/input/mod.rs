//! One frame of raw input, and the state machine that reads it as a gesture.

pub mod frame;
pub mod state_manager;
