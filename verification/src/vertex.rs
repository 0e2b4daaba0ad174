//! The vertex: what a mesh gives, and what the transformer adds.

use vstd::prelude::*;
use crate::color::Color;
use crate::geometry::{Vec2, Vec3};

verus! {

/// A mesh vertex. The first four fields are given by the mesh and never
/// changed; the last two are filled in by the vertex transformer.
#[derive(Clone, Copy, Debug, PartialEq, Eq)]
pub struct Vertex {
    /// The position in model space.
    pub position: Vec3,
    /// The surface normal in model space.
    pub normal: Vec3,
    /// The texture coordinates.
    pub tex_coords: Vec2,
    /// The colour of the vertex.
    pub color: Color,
    /// The position in screen space.
    pub transformed_position: Vec3,
    /// The normal in world space.
    pub transformed_normal: Vec3,
}

} // verus!
