//! A fixed-point shading core: the vertex transformer and the procedural
//! fragment colourers of a software rendering pipeline, with every rule
//! stated over integers and proved.

pub mod fixed;
pub mod color;
pub mod geometry;
pub mod oracle;
pub mod fragment;
pub mod vertex;
pub mod uniforms;
pub mod random;
pub mod shaders;

pub use uniforms::Uniforms;
