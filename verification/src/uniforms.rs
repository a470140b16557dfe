//! The constants of a mesh.
use crate::mesh::Transformation;
use crate::resource::{BindGroupLayoutEntry, ShaderStages};
use vstd::prelude::*;

verus! {

/// The number of bytes of [`Uniforms`]: sixteen words of transformation and
/// forty-eight of padding.
pub const UNIFORMS_SIZE: usize = 256;

/// The constants of a mesh, word by word as they lie in the uniform buffer.
#[derive(Clone, Copy, Debug, PartialEq, Eq)]
pub struct Uniforms {
    /// The transformation of the mesh, as bit patterns.
    pub transform: [u32; 16],
    /// Uniform values must be 256-aligned; see `wgpu::Limits` and its
    /// `min_uniform_buffer_offset_alignment`.
    pub padding: [u32; 48],
}

impl Uniforms {
    /// The constants of a mesh with the given transformation.
    pub open spec fn of(transform: Transformation) -> Uniforms {
        Uniforms {
            transform: transform.bits,
            padding: vstd::array::spec_array_fill_for_copy_type::<u32, 48>(0),
        }
    }

    /// The uniform buffer at binding 0, seen by both stages, with an offset that is
    /// given when it is bound, and at least the constants of one mesh long.
    pub open spec fn layout_entry() -> BindGroupLayoutEntry {
        BindGroupLayoutEntry {
            binding: 0,
            visibility: ShaderStages { vertex: true, fragment: true, compute: false },
            has_dynamic_offset: true,
            min_binding_size: Some(UNIFORMS_SIZE as u64),
            count: None,
        }
    }

    /// Returns the constants of a mesh with the given transformation.
    pub fn new(transform: Transformation) -> (uniforms: Self)
        ensures
            uniforms == Self::of(transform),
            uniforms.transform == transform.bits,
            uniforms.padding@ == Seq::new(48, |i: int| 0u32),
    {
        let uniforms = Uniforms { transform: transform.bits, padding: [0u32; 48] };

        proof {
            assert(uniforms.padding@ =~= Seq::new(48, |i: int| 0u32));
        }

        uniforms
    }

    /// Returns the entry of the uniform buffer in the bind group layout.
    pub fn entry() -> (entry: BindGroupLayoutEntry)
        ensures
            entry == Self::layout_entry(),
    {
        BindGroupLayoutEntry {
            binding: 0,
            visibility: ShaderStages { vertex: true, fragment: true, compute: false },
            has_dynamic_offset: true,
            min_binding_size: Some(UNIFORMS_SIZE as u64),
            count: None,
        }
    }

    /// Returns the number of bytes to bind.
    pub fn min_size() -> (size: Option<u64>)
        ensures
            size == Some(UNIFORMS_SIZE as u64),
    {
        Some(UNIFORMS_SIZE as u64)
    }
}

} // verus!
