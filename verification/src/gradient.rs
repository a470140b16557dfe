//! Meshes of gradients.
use crate::antialiasing::MSAA;
use crate::buffer::{Buffer, BufferModel};
use crate::plan::FamilyModel;
use crate::resource::{
    BindGroup, BindGroupLayout, BufferDescriptor, BufferUsages, PipelineLayout, RenderPipeline,
    ShaderFile, ShaderModule, VertexBufferLayout, VertexFormat, VertexStepMode,
    fragment_target, multisample_state, primitive_state, vertex_attributes,
};
use crate::uniforms::{Uniforms, UNIFORMS_SIZE};
use crate::{resource, INITIAL_VERTEX_COUNT};
use vstd::prelude::*;

verus! {

/// The number of bytes of a vertex: two coordinates, eight colours of two words,
/// four words of offsets and the four coordinates of a direction, four bytes each.
pub const VERTEX_SIZE: usize = 104;

/// The attributes of a vertex: its position, eight colours two by two, the offsets
/// of the colours, and the direction of the gradient.
pub open spec fn vertex_formats() -> Seq<(u32, VertexFormat)> {
    seq![
        (0u32, VertexFormat::Float32x2),
        (1u32, VertexFormat::Uint32x4),
        (2u32, VertexFormat::Uint32x4),
        (3u32, VertexFormat::Uint32x4),
        (4u32, VertexFormat::Uint32x4),
        (5u32, VertexFormat::Uint32x4),
        (6u32, VertexFormat::Float32x4),
    ]
}

/// The files of the shader module. The last one says in which colour space the
/// gradient is interpolated.
pub open spec fn shader_files(gamma_correction: bool) -> Seq<ShaderFile> {
    if gamma_correction {
        seq![ShaderFile::Triangle, ShaderFile::Gradient, ShaderFile::Oklab]
    } else {
        seq![ShaderFile::Triangle, ShaderFile::Gradient, ShaderFile::LinearRgb]
    }
}

/// The pipeline that draws meshes of gradients.
#[derive(Debug, PartialEq, Eq)]
pub struct Pipeline {
    /// The render pipeline.
    pub pipeline: RenderPipeline,
    /// The layout of the bind group with the constants of a mesh.
    pub constants_layout: BindGroupLayout,
}

/// What a layer keeps for its meshes of gradients.
#[derive(Debug, PartialEq, Eq)]
pub struct Layer {
    /// The vertices.
    pub vertices: Buffer,
    /// The constants of each mesh.
    pub uniforms: Buffer,
    /// The bind group with the constants.
    pub constants: BindGroup,
}

/// The layout of the bind group with the constants of a mesh.
pub open spec fn constants_layout() -> BindGroupLayout {
    BindGroupLayout {
        label: "iced_wgpu.triangle.gradient.bind_group_layout",
        entry: Uniforms::layout_entry(),
    }
}

/// The bind group with the constants in the given buffer.
pub open spec fn constants_in(buffer: BufferDescriptor, layout: BindGroupLayout) -> BindGroup {
    BindGroup {
        label: "iced_wgpu.triangle.gradient.bind_group",
        layout,
        binding: 0,
        buffer,
        offset: 0,
        size: Some(UNIFORMS_SIZE as u64),
    }
}

impl Pipeline {
    /// The pipeline draws to textures of the given format with the given strategy,
    /// with or without gamma correction.
    pub open spec fn draws_to(
        &self,
        format: wgpu::TextureFormat,
        msaa: Option<MSAA>,
        gamma_correction: bool,
    ) -> bool {
        &&& self.constants_layout == constants_layout()
        &&& self.pipeline.label == "iced_wgpu.triangle.gradient.pipeline"
        &&& self.pipeline.layout == (PipelineLayout {
            label: "iced_wgpu.triangle.gradient.pipeline_layout",
            bind_group_layout: constants_layout(),
        })
        &&& self.pipeline.module.label == "iced_wgpu.triangle.gradient.shader"
        &&& self.pipeline.module.files@ == shader_files(gamma_correction)
        &&& self.pipeline.vertex_entry_point == "gradient_vs_main"
        &&& self.pipeline.vertices.array_stride == VERTEX_SIZE
        &&& self.pipeline.vertices.step_mode == VertexStepMode::Vertex
        &&& self.pipeline.vertices.attributes@ == resource::packed(vertex_formats())
        &&& self.pipeline.fragment_entry_point == "gradient_fs_main"
        &&& self.pipeline.target == resource::blended_target(format)
        &&& self.pipeline.primitive == resource::clockwise_triangles()
        &&& self.pipeline.depth_stencil is None
        &&& self.pipeline.multisample == resource::sampling(msaa)
        &&& self.pipeline.multiview is None
    }

    /// Describes the pipeline that draws to textures of the given format with the
    /// given strategy, with or without gamma correction.
    pub fn new(
        format: wgpu::TextureFormat,
        antialiasing: Option<MSAA>,
        gamma_correction: bool,
    ) -> (pipeline: Self)
        ensures
            pipeline.draws_to(format, antialiasing, gamma_correction),
    {
        let constants_layout = BindGroupLayout {
            label: "iced_wgpu.triangle.gradient.bind_group_layout",
            entry: Uniforms::entry(),
        };

        let layout = PipelineLayout {
            label: "iced_wgpu.triangle.gradient.pipeline_layout",
            bind_group_layout: constants_layout,
        };

        let module = ShaderModule {
            label: "iced_wgpu.triangle.gradient.shader",
            files: if gamma_correction {
                vec![ShaderFile::Triangle, ShaderFile::Gradient, ShaderFile::Oklab]
            } else {
                vec![ShaderFile::Triangle, ShaderFile::Gradient, ShaderFile::LinearRgb]
            },
        };

        let formats: [(u32, VertexFormat); 7] = [
            // Position
            (0u32, VertexFormat::Float32x2),
            // Colors 1-2
            (1u32, VertexFormat::Uint32x4),
            // Colors 3-4
            (2u32, VertexFormat::Uint32x4),
            // Colors 5-6
            (3u32, VertexFormat::Uint32x4),
            // Colors 7-8
            (4u32, VertexFormat::Uint32x4),
            // Offsets
            (5u32, VertexFormat::Uint32x4),
            // Direction
            (6u32, VertexFormat::Float32x4),
        ];

        proof {
            lemma_vertex_size();
            assert(formats@ =~= vertex_formats());
        }

        let pipeline = RenderPipeline {
            label: "iced_wgpu.triangle.gradient.pipeline",
            layout,
            module,
            vertex_entry_point: "gradient_vs_main",
            vertices: VertexBufferLayout {
                array_stride: VERTEX_SIZE as u64,
                step_mode: VertexStepMode::Vertex,
                attributes: vertex_attributes(&formats),
            },
            fragment_entry_point: "gradient_fs_main",
            target: fragment_target(format),
            primitive: primitive_state(),
            depth_stencil: None,
            multisample: multisample_state(antialiasing),
            multiview: None,
        };

        proof {
            assert(pipeline.module.files@ =~= shader_files(gamma_correction));
        }

        Pipeline { pipeline, constants_layout }
    }
}

/// The attributes of a vertex fill it to the last byte.
pub proof fn lemma_vertex_size()
    ensures
        resource::attributes_size(vertex_formats(), 7) == VERTEX_SIZE,
{
    reveal_with_fuel(resource::attributes_size, 8);
}

impl View for Layer {
    type V = FamilyModel;

    open spec fn view(&self) -> FamilyModel {
        FamilyModel {
            vertices: self.vertices@,
            uniforms: self.uniforms@,
            constants: self.constants,
        }
    }
}

/// A layer with which nothing has been done yet.
pub open spec fn new_layer(constants_layout: BindGroupLayout) -> FamilyModel {
    let uniforms = BufferDescriptor {
        label: "iced_wgpu.triangle.gradient.uniforms",
        size: UNIFORMS_SIZE as u64,
        usage: BufferUsages { index: false, vertex: false, uniform: true, copy_dst: true },
    };
    FamilyModel {
        vertices: BufferModel {
            raw: BufferDescriptor {
                label: "iced_wgpu.triangle.gradient.vertex_buffer",
                size: (VERTEX_SIZE * INITIAL_VERTEX_COUNT) as u64,
                usage: BufferUsages { index: false, vertex: true, uniform: false, copy_dst: true },
            },
            stride: VERTEX_SIZE as nat,
            offsets: Seq::empty(),
        },
        uniforms: BufferModel {
            raw: uniforms,
            stride: UNIFORMS_SIZE as nat,
            offsets: Seq::empty(),
        },
        constants: constants_in(uniforms, constants_layout),
    }
}

impl Layer {
    /// Describes a layer with which nothing has been done yet.
    pub fn new(constants_layout: &BindGroupLayout) -> (layer: Self)
        ensures
            layer@ == new_layer(*constants_layout),
    {
        let vertices = Buffer::new(
            "iced_wgpu.triangle.gradient.vertex_buffer",
            VERTEX_SIZE,
            INITIAL_VERTEX_COUNT,
            BufferUsages { index: false, vertex: true, uniform: false, copy_dst: true },
        );

        let uniforms = Buffer::new(
            "iced_wgpu.triangle.gradient.uniforms",
            UNIFORMS_SIZE,
            1,
            BufferUsages { index: false, vertex: false, uniform: true, copy_dst: true },
        );

        let constants = Self::bind_group(&uniforms.raw, constants_layout);

        Layer { vertices, uniforms, constants }
    }

    /// Describes the bind group with the constants in the given buffer.
    pub fn bind_group(uniform_buffer: &BufferDescriptor, layout: &BindGroupLayout) -> (group:
        BindGroup)
        ensures
            group == constants_in(*uniform_buffer, *layout),
    {
        BindGroup {
            label: "iced_wgpu.triangle.gradient.bind_group",
            layout: *layout,
            binding: 0,
            buffer: *uniform_buffer,
            offset: 0,
            size: Uniforms::min_size(),
        }
    }
}

} // verus!
