//! Meshes of solid colours.
use crate::antialiasing::MSAA;
use crate::buffer::{Buffer, BufferModel};
use crate::plan::FamilyModel;
use crate::resource::{
    BindGroup, BindGroupLayout, BufferDescriptor, BufferUsages, PipelineLayout, RenderPipeline,
    ShaderFile, ShaderModule, VertexBufferLayout, VertexFormat, VertexStepMode,
    fragment_target, multisample_state, primitive_state, vertex_attributes,
};
use crate::uniforms::{Uniforms, UNIFORMS_SIZE};
use crate::{resource, INITIAL_VERTEX_COUNT};
use vstd::prelude::*;

verus! {

/// The number of bytes of a vertex: two coordinates and the four channels of a
/// colour, four bytes each.
pub const VERTEX_SIZE: usize = 24;

/// The attributes of a vertex: its position, then its colour.
pub open spec fn vertex_formats() -> Seq<(u32, VertexFormat)> {
    seq![(0u32, VertexFormat::Float32x2), (1u32, VertexFormat::Float32x4)]
}

/// The pipeline that draws meshes of solid colours.
#[derive(Debug, PartialEq, Eq)]
pub struct Pipeline {
    /// The render pipeline.
    pub pipeline: RenderPipeline,
    /// The layout of the bind group with the constants of a mesh.
    pub constants_layout: BindGroupLayout,
}

/// What a layer keeps for its meshes of solid colours.
#[derive(Debug, PartialEq, Eq)]
pub struct Layer {
    /// The vertices.
    pub vertices: Buffer,
    /// The constants of each mesh.
    pub uniforms: Buffer,
    /// The bind group with the constants.
    pub constants: BindGroup,
}

/// The layout of the bind group with the constants of a mesh.
pub open spec fn constants_layout() -> BindGroupLayout {
    BindGroupLayout {
        label: "iced_wgpu.triangle.solid.bind_group_layout",
        entry: Uniforms::layout_entry(),
    }
}

/// The bind group with the constants in the given buffer.
pub open spec fn constants_in(buffer: BufferDescriptor, layout: BindGroupLayout) -> BindGroup {
    BindGroup {
        label: "iced_wgpu.triangle.solid.bind_group",
        layout,
        binding: 0,
        buffer,
        offset: 0,
        size: Some(UNIFORMS_SIZE as u64),
    }
}

impl Pipeline {
    /// The pipeline draws to textures of the given format with the given strategy.
    pub open spec fn draws_to(&self, format: wgpu::TextureFormat, msaa: Option<MSAA>) -> bool {
        &&& self.constants_layout == constants_layout()
        &&& self.pipeline.label == "iced_wgpu::triangle::solid pipeline"
        &&& self.pipeline.layout == (PipelineLayout {
            label: "iced_wgpu.triangle.solid.pipeline_layout",
            bind_group_layout: constants_layout(),
        })
        &&& self.pipeline.module.label == "iced_wgpu.triangle.solid.shader"
        &&& self.pipeline.module.files@ == seq![ShaderFile::Triangle, ShaderFile::Solid]
        &&& self.pipeline.vertex_entry_point == "solid_vs_main"
        &&& self.pipeline.vertices.array_stride == VERTEX_SIZE
        &&& self.pipeline.vertices.step_mode == VertexStepMode::Vertex
        &&& self.pipeline.vertices.attributes@ == resource::packed(vertex_formats())
        &&& self.pipeline.fragment_entry_point == "solid_fs_main"
        &&& self.pipeline.target == resource::blended_target(format)
        &&& self.pipeline.primitive == resource::clockwise_triangles()
        &&& self.pipeline.depth_stencil is None
        &&& self.pipeline.multisample == resource::sampling(msaa)
        &&& self.pipeline.multiview is None
    }

    /// Describes the pipeline that draws to textures of the given format with the
    /// given strategy.
    pub fn new(format: wgpu::TextureFormat, msaa: Option<MSAA>) -> (pipeline: Self)
        ensures
            pipeline.draws_to(format, msaa),
    {
        let constants_layout = BindGroupLayout {
            label: "iced_wgpu.triangle.solid.bind_group_layout",
            entry: Uniforms::entry(),
        };

        let layout = PipelineLayout {
            label: "iced_wgpu.triangle.solid.pipeline_layout",
            bind_group_layout: constants_layout,
        };

        let module = ShaderModule {
            label: "iced_wgpu.triangle.solid.shader",
            files: vec![ShaderFile::Triangle, ShaderFile::Solid],
        };

        let formats: [(u32, VertexFormat); 2] = [
            // Position
            (0u32, VertexFormat::Float32x2),
            // Color
            (1u32, VertexFormat::Float32x4),
        ];

        proof {
            lemma_vertex_size();
            assert(formats@ =~= vertex_formats());
        }

        let pipeline = RenderPipeline {
            label: "iced_wgpu::triangle::solid pipeline",
            layout,
            module,
            vertex_entry_point: "solid_vs_main",
            vertices: VertexBufferLayout {
                array_stride: VERTEX_SIZE as u64,
                step_mode: VertexStepMode::Vertex,
                attributes: vertex_attributes(&formats),
            },
            fragment_entry_point: "solid_fs_main",
            target: fragment_target(format),
            primitive: primitive_state(),
            depth_stencil: None,
            multisample: multisample_state(msaa),
            multiview: None,
        };

        proof {
            assert(pipeline.module.files@ =~= seq![ShaderFile::Triangle, ShaderFile::Solid]);
        }

        Pipeline { pipeline, constants_layout }
    }
}

/// The attributes of a vertex fill it to the last byte.
pub proof fn lemma_vertex_size()
    ensures
        resource::attributes_size(vertex_formats(), 2) == VERTEX_SIZE,
{
    reveal_with_fuel(resource::attributes_size, 3);
}

impl View for Layer {
    type V = FamilyModel;

    open spec fn view(&self) -> FamilyModel {
        FamilyModel {
            vertices: self.vertices@,
            uniforms: self.uniforms@,
            constants: self.constants,
        }
    }
}

/// A layer with which nothing has been done yet.
pub open spec fn new_layer(constants_layout: BindGroupLayout) -> FamilyModel {
    let uniforms = BufferDescriptor {
        label: "iced_wgpu.triangle.solid.uniforms",
        size: UNIFORMS_SIZE as u64,
        usage: BufferUsages { index: false, vertex: false, uniform: true, copy_dst: true },
    };
    FamilyModel {
        vertices: BufferModel {
            raw: BufferDescriptor {
                label: "iced_wgpu.triangle.solid.vertex_buffer",
                size: (VERTEX_SIZE * INITIAL_VERTEX_COUNT) as u64,
                usage: BufferUsages { index: false, vertex: true, uniform: false, copy_dst: true },
            },
            stride: VERTEX_SIZE as nat,
            offsets: Seq::empty(),
        },
        uniforms: BufferModel {
            raw: uniforms,
            stride: UNIFORMS_SIZE as nat,
            offsets: Seq::empty(),
        },
        constants: constants_in(uniforms, constants_layout),
    }
}

impl Layer {
    /// Describes a layer with which nothing has been done yet.
    pub fn new(constants_layout: &BindGroupLayout) -> (layer: Self)
        ensures
            layer@ == new_layer(*constants_layout),
    {
        let vertices = Buffer::new(
            "iced_wgpu.triangle.solid.vertex_buffer",
            VERTEX_SIZE,
            INITIAL_VERTEX_COUNT,
            BufferUsages { index: false, vertex: true, uniform: false, copy_dst: true },
        );

        let uniforms = Buffer::new(
            "iced_wgpu.triangle.solid.uniforms",
            UNIFORMS_SIZE,
            1,
            BufferUsages { index: false, vertex: false, uniform: true, copy_dst: true },
        );

        let constants = Self::bind_group(&uniforms.raw, constants_layout);

        Layer { vertices, uniforms, constants }
    }

    /// Describes the bind group with the constants in the given buffer.
    pub fn bind_group(buffer: &BufferDescriptor, layout: &BindGroupLayout) -> (group: BindGroup)
        ensures
            group == constants_in(*buffer, *layout),
    {
        BindGroup {
            label: "iced_wgpu.triangle.solid.bind_group",
            layout: *layout,
            binding: 0,
            buffer: *buffer,
            offset: 0,
            size: Uniforms::min_size(),
        }
    }
}

} // verus!
