//! The canvas: what one frame of input does to the view and to the graph.

pub mod data;
pub mod hit_test;
pub mod input_handlers;
pub mod laws;
pub mod model;
pub mod selection;
pub mod snapshot;
