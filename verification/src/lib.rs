//! Interactive canvas engine for a node-and-edge diagram editor.
//!
//! The crate holds the graph store, the pan/zoom transform, the gesture state
//! machine that turns one frame of raw pointer and keyboard signals into at
//! most one semantic action, the rectangle selection and the link protocol
//! that creates edges. All coordinates are integers: positions are counted in
//! units that the embedding application chooses (a fraction of a pixel), and
//! scale factors are counted in millionths.

pub mod canvas;
pub mod edge_path;
pub mod geometry;
pub mod graph;
pub mod input;
pub mod persistence;
pub mod transform;
