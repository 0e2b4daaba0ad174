//! The uniforms: what every call of a frame shares.

use vstd::prelude::*;
use crate::geometry::Mat4;
use crate::oracle::Oracle;

verus! {

/// The read-only configuration of a frame.
pub struct Uniforms<O: Oracle> {
    /// From model space to world space.
    pub model_matrix: Mat4,
    /// From world space to camera space.
    pub view_matrix: Mat4,
    /// From camera space to clip space.
    pub projection_matrix: Mat4,
    /// From normalized device coordinates to screen space.
    pub viewport_matrix: Mat4,
    /// The frame counter that drives animation.
    pub time: u32,
    /// The source of noise and sine.
    pub noise: O,
}

} // verus!
