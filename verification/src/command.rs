//! What to do with the device.
use crate::mesh::{Kind, Rectangle};
use crate::resource::{BindGroup, BufferDescriptor, IndexFormat};
use crate::uniforms::Uniforms;
use vstd::prelude::*;

verus! {

/// The buffers of a layer.
#[derive(Clone, Copy, Debug, PartialEq, Eq, Structural)]
pub enum Slot {
    /// The indices of all meshes.
    Indices,
    /// The vertices of the meshes of one kind.
    Vertices(Kind),
    /// The constants of the meshes of one kind.
    Uniforms(Kind),
}

/// What is written to a buffer.
#[derive(Clone, Copy, Debug, PartialEq, Eq)]
pub enum Contents {
    /// The indices of the mesh with the given number.
    Indices(usize),
    /// The vertices of the mesh with the given number.
    Vertices(usize),
    /// These constants.
    Uniforms(Uniforms),
}

/// A step in preparing a layer.
#[derive(Clone, Copy, Debug, PartialEq, Eq)]
pub enum Upload {
    /// Create a buffer. It takes the place of the one in its slot.
    CreateBuffer {
        /// The slot it goes to.
        slot: Slot,
        /// What it looks like.
        buffer: BufferDescriptor,
    },
    /// Create the bind group with the constants of one kind.
    CreateBindGroup {
        /// The kind.
        kind: Kind,
        /// What it looks like.
        group: BindGroup,
    },
    /// Write to a buffer.
    Write {
        /// The slot of the buffer.
        slot: Slot,
        /// Where in the buffer to start, in bytes.
        offset: u64,
        /// What to write.
        contents: Contents,
    },
}

/// A step in drawing a layer.
#[derive(Clone, Copy, Debug, PartialEq, Eq, Structural)]
pub enum Draw {
    /// Confine what follows to a rectangle.
    SetScissorRect(Rectangle),
    /// Use the pipeline of one kind.
    SetPipeline(Kind),
    /// Bind the constants of one kind.
    SetBindGroup {
        /// The number of the bind group.
        index: u32,
        /// The kind.
        kind: Kind,
        /// Where in the uniform buffer the constants start, in bytes.
        dynamic_offset: u32,
    },
    /// Take the vertices from a buffer.
    SetVertexBuffer {
        /// The number of the vertex buffer.
        index: u32,
        /// The slot of the buffer.
        slot: Slot,
        /// Where in the buffer they start, in bytes.
        offset: u64,
    },
    /// Take the indices from a buffer.
    SetIndexBuffer {
        /// The slot of the buffer.
        slot: Slot,
        /// Where in the buffer they start, in bytes.
        offset: u64,
        /// The width of an index.
        format: IndexFormat,
    },
    /// Draw the primitives that a range of indices makes.
    DrawIndexed {
        /// The first index.
        first_index: u32,
        /// The end of the range of indices.
        end_index: u32,
        /// What is added to each index.
        base_vertex: i32,
        /// The first instance.
        first_instance: u32,
        /// The end of the range of instances.
        end_instance: u32,
    },
}

} // verus!
