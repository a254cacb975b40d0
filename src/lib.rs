//! Render targets and camera state for a real-time renderer: which images a
//! camera draws into, double-buffered color targets, the reactive camera
//! update, and the per-frame snapshot handed to GPU submission.
use vstd::prelude::*;

pub mod camera;
pub mod double_buffer;
pub mod entity;
pub mod extract;
pub mod geometry;
pub mod graph;
pub mod prepass;
pub mod render_target;
pub mod sort;
pub mod update;
pub mod viewport;

verus! {

} // verus!
