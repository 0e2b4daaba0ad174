//! The fragment: one rasterized sample, as the rasterizer hands it over.

use vstd::prelude::*;
use crate::geometry::Vec3;

verus! {

/// One rasterized sample with its interpolated attributes.
#[derive(Clone, Copy, Debug, PartialEq, Eq)]
pub struct Fragment {
    /// The interpolated position on the surface, the input of the noise.
    pub vertex_position: Vec3,
    /// The interpolated depth.
    pub depth: i32,
    /// The lighting factor, `ONE` for full light. It is not clamped here.
    pub intensity: i32,
}

} // verus!
