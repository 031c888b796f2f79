//! Flat ("pure colour") shading for a WebGL scene graph.
//!
//! A [`PureColorShading`] holds the text of a vertex and a fragment shader.
//! From a live graphics context it makes a [`PureColorProgram`]: the linked
//! GPU program together with the locations of the one vertex attribute and
//! the three transform uniforms that the shaders declare. Before each draw
//! the program says which of the renderer's matrices goes to which of those
//! locations.

pub mod names;
pub mod error;
pub mod matrix;
pub mod gl;
pub mod linking;
pub mod attributes;
pub mod program;
pub mod shading;
pub mod laws;

pub use crate::error::ShadingError;
pub use crate::matrix::{Mat4, RendererState};
pub use crate::names::UniformSlot;
pub use crate::program::{PureColorProgram, UniformWrite};
pub use crate::shading::PureColorShading;
