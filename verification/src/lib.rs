//! Draw meshes of triangles.
//!
//! The library decides everything about a frame that can be decided without a
//! graphics device: which multisampling strategy to use, what every pipeline,
//! buffer and bind group looks like, where in the buffers the data of each mesh
//! goes, and which commands draw it. The decisions are plain values; the code
//! that owns the device carries them out in the order in which they are listed.

pub mod antialiasing;
pub mod buffer;
pub mod command;
pub mod gradient;
pub mod laws;
pub mod laws_of_calls;
pub mod laws_of_frames;
pub mod laws_of_layers;
pub mod laws_of_resources;
pub mod layer;
pub mod mesh;
pub mod msaa;
pub mod pipeline;
pub mod plan;
pub mod resource;
pub mod shader;
pub mod solid;
pub mod uniforms;

pub use layer::Layer;
pub use pipeline::{Pipeline, State};
pub use uniforms::Uniforms;

use vstd::prelude::*;

verus! {

/// The number of indices that a new layer has room for.
pub const INITIAL_INDEX_COUNT: usize = 1_000;

/// The number of vertices of each kind that a new layer has room for.
pub const INITIAL_VERTEX_COUNT: usize = 1_000;

} // verus!
