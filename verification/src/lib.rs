//! Core of an N-layer four-dimensional twisty-puzzle simulator.
//!
//! The library covers the puzzle's combinatorial topology (pieces, stickers
//! and twist axes for an arbitrary layer count), the signed-axis-permutation
//! algebra that tracks each piece's orientation, the twist engine that applies
//! a twist to a whole puzzle state, and the animation/history controller that
//! queues twists, advances them frame by frame and keeps undo/redo history.
//!
//! Everything here is integer logic; projection to screen space, easing
//! curves and the rendering pipeline live outside the library.

pub mod axes;
pub mod controller;
pub mod directions;
pub mod orient;
pub mod puzzle4d;
pub mod sign;
pub mod topology;
pub mod twists;
