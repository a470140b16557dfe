//! What strategies, descriptions and shader texts come to, in numbers and names.
use crate::antialiasing::{Antialiasing, ScaleFactor, MSAA};
use crate::mesh::Transformation;
use crate::msaa;
use crate::pipeline::State;
use crate::resource::{
    BindGroup, BindGroupLayout, BindGroupLayoutEntry, BlendState, BufferDescriptor, BufferUsages,
    ColorTargetState, ColorWrites, FrontFace, MultisampleState, PipelineLayout, PolygonMode,
    PrimitiveState, PrimitiveTopology, ShaderFile, ShaderStages, VertexAttribute, VertexFormat,
    VertexStepMode,
};
use crate::shader::Sources;
use crate::uniforms::Uniforms;
use crate::{antialiasing, gradient, resource, solid};
use vstd::prelude::*;

verus! {

/// A strategy has as many samples as its name says, and without one there is one sample.
pub proof fn samples_are_as_named()
    ensures
        MSAA::X2.samples() == 2,
        MSAA::X4.samples() == 4,
        MSAA::X8.samples() == 8,
        MSAA::X16.samples() == 16,
        resource::samples_of(None) == 1,
        forall|msaa: MSAA| #[trigger] resource::samples_of(Some(msaa)) == msaa.samples(),
{
}

/// A format supports one sample, and two, four, eight or sixteen if the bit for it is set.
pub proof fn bits_say_what_is_supported(flags: u32, count: u32)
    ensures
        antialiasing::supports(flags, count) == if count == 1 {
            true
        } else if count == 2 {
            flags & 2 == 2
        } else if count == 4 {
            flags & 4 == 4
        } else if count == 8 {
            flags & 8 == 8
        } else if count == 16 {
            flags & 16 == 16
        } else {
            false
        },
{
}

/// A scale factor compares with 2 and with 1.5 as the number whose bits it has: the bits
/// of numbers from zero to infinity are in numeric order, and all others compare as
/// neither greater nor equal.
pub proof fn scale_factors_compare_by_their_bits(scale_factor: ScaleFactor)
    ensures
        scale_factor.above_two() <==> 0x4000_0000_0000_0000 < scale_factor.bits
            <= 0x7ff0_0000_0000_0000,
        scale_factor.from_one_and_a_half() <==> 0x3ff8_0000_0000_0000 <= scale_factor.bits
            <= 0x7ff0_0000_0000_0000,
{
}

/// Without antialiasing there is no strategy, whatever the screen and the format.
pub proof fn disabled_means_none(scale_factor: ScaleFactor, macos: bool, flags: u32)
    ensures
        antialiasing::chosen(Antialiasing::Disabled, scale_factor, macos, flags) is None,
{
}

/// A strategy that is asked for is used if the bit for it is set, and four samples are
/// otherwise, whatever the screen.
pub proof fn a_given_strategy_is_used_if_possible(
    msaa: MSAA,
    scale_factor: ScaleFactor,
    macos: bool,
    flags: u32,
)
    ensures
        antialiasing::chosen(Antialiasing::MSAA(msaa), scale_factor, macos, flags) == Some(
            match msaa {
                MSAA::X2 => if flags & 2 == 2 {
                    MSAA::X2
                } else {
                    MSAA::X4
                },
                MSAA::X4 => MSAA::X4,
                MSAA::X8 => if flags & 8 == 8 {
                    MSAA::X8
                } else {
                    MSAA::X4
                },
                MSAA::X16 => if flags & 16 == 16 {
                    MSAA::X16
                } else {
                    MSAA::X4
                },
            },
        ),
{
}

/// Left to itself, the strategy is none if and only if the scale factor is a number greater
/// than 2. Otherwise it is two samples on macOS if the scale factor is at least 1.5 and the
/// bit for two samples is set, and four samples in every other case.
pub proof fn automatic_goes_by_the_scale_factor(
    scale_factor: ScaleFactor,
    macos: bool,
    flags: u32,
)
    ensures
        ({
            let msaa = antialiasing::chosen(Antialiasing::Automatic, scale_factor, macos, flags);
            let above_two = 0x4000_0000_0000_0000 < scale_factor.bits <= 0x7ff0_0000_0000_0000;
            let one_and_a_half = 0x3ff8_0000_0000_0000 <= scale_factor.bits
                <= 0x7ff0_0000_0000_0000;
            &&& msaa is None <==> above_two
            &&& msaa == Some(MSAA::X2) <==> !above_two && macos && one_and_a_half && flags & 2 == 2
            &&& msaa == Some(MSAA::X4) <==> !above_two && !(macos && one_and_a_half && flags & 2
                == 2)
        }),
{
}

/// Attributes keep their formats and locations. The first starts at the start of the
/// vertex, and each next one where the one before it ends.
pub proof fn attributes_follow_one_another(formats: Seq<(u32, VertexFormat)>)
    requires
        resource::attributes_size(formats, formats.len() as int) <= u64::MAX,
    ensures
        ({
            let attributes = resource::packed(formats);
            &&& attributes.len() == formats.len()
            &&& forall|i: int|
                0 <= i < formats.len() ==> (#[trigger] attributes[i]).format == formats[i].1
                    && attributes[i].shader_location == formats[i].0
            &&& formats.len() > 0 ==> attributes[0].offset == 0
            &&& forall|i: int, j: int|
                0 <= i && j == i + 1 && j < formats.len() ==> (#[trigger] attributes[j]).offset == (
                #[trigger] attributes[i]).offset + (match formats[i].1 {
                    VertexFormat::Float32x2 => 8int,
                    VertexFormat::Float32x4 => 16int,
                    VertexFormat::Uint32x4 => 16int,
                })
        }),
{
    let attributes = resource::packed(formats);
    assert forall|i: int, j: int| 0 <= i && j == i + 1 && j < formats.len() implies (
    #[trigger] attributes[j]).offset == (#[trigger] attributes[i]).offset + (match formats[i].1 {
        VertexFormat::Float32x2 => 8int,
        VertexFormat::Float32x4 => 16int,
        VertexFormat::Uint32x4 => 16int,
    }) by {
        resource::lemma_attributes_size_monotonic(formats, i, formats.len() as int);
        resource::lemma_attributes_size_monotonic(formats, j, formats.len() as int);
    }
}

/// What attributes may take at most: those of no vertex take nothing, and one more takes 8
/// bytes for two numbers and 16 for four.
pub proof fn attributes_add_up(formats: Seq<(u32, VertexFormat)>, n: int)
    requires
        0 <= n < formats.len(),
    ensures
        resource::attributes_size(formats, 0) == 0,
        resource::attributes_size(formats, n + 1) == resource::attributes_size(formats, n) + (
        match formats[n].1 {
            VertexFormat::Float32x2 => 8int,
            VertexFormat::Float32x4 => 16int,
            VertexFormat::Uint32x4 => 16int,
        }),
{
}

/// The colour target, the primitives and the sampling that both pipelines share.
pub proof fn shared_states_in_full(format: wgpu::TextureFormat, msaa: Option<MSAA>)
    ensures
        resource::blended_target(format) == (ColorTargetState {
            format,
            blend: Some(BlendState::AlphaBlending),
            write_mask: ColorWrites { red: true, green: true, blue: true, alpha: true },
        }),
        resource::clockwise_triangles() == (PrimitiveState {
            topology: PrimitiveTopology::TriangleList,
            strip_index_format: None,
            front_face: FrontFace::Cw,
            cull_mode: None,
            unclipped_depth: false,
            polygon_mode: PolygonMode::Fill,
            conservative: false,
        }),
        resource::sampling(msaa) == (MultisampleState {
            count: match msaa {
                None => 1u32,
                Some(MSAA::X2) => 2u32,
                Some(MSAA::X4) => 4u32,
                Some(MSAA::X8) => 8u32,
                Some(MSAA::X16) => 16u32,
            },
            mask: 0xffff_ffff_ffff_ffff,
            alpha_to_coverage_enabled: false,
        }),
{
}

/// The constants of a mesh are the words of its transformation, and forty-eight zeros. They
/// are bound as 256 bytes, seen by both stages, at an offset that is given when they are
/// bound.
pub proof fn uniforms_in_full(transform: Transformation)
    ensures
        crate::uniforms::UNIFORMS_SIZE == 256,
        Uniforms::of(transform).transform == transform.bits,
        forall|i: int| 0 <= i < 48 ==> #[trigger] Uniforms::of(transform).padding@[i] == 0,
        Uniforms::layout_entry() == (BindGroupLayoutEntry {
            binding: 0,
            visibility: ShaderStages { vertex: true, fragment: true, compute: false },
            has_dynamic_offset: true,
            min_binding_size: Some(256u64),
            count: None,
        }),
{
}

/// The bind groups of both kinds, and the layouts they have, differ in their labels alone.
pub proof fn bind_groups_in_full(buffer: BufferDescriptor, layout: BindGroupLayout)
    ensures
        solid::constants_in(buffer, layout) == (BindGroup {
            label: "iced_wgpu.triangle.solid.bind_group",
            layout,
            binding: 0,
            buffer,
            offset: 0,
            size: Some(256u64),
        }),
        gradient::constants_in(buffer, layout) == (BindGroup {
            label: "iced_wgpu.triangle.gradient.bind_group",
            ..solid::constants_in(buffer, layout)
        }),
        solid::constants_layout() == (BindGroupLayout {
            label: "iced_wgpu.triangle.solid.bind_group_layout",
            entry: Uniforms::layout_entry(),
        }),
        gradient::constants_layout() == (BindGroupLayout {
            label: "iced_wgpu.triangle.gradient.bind_group_layout",
            ..solid::constants_layout()
        }),
{
}

/// The pipeline for solid colours in full: whatever the strategy, only the number of
/// samples depends on it.
pub proof fn solid_pipelines_in_full(
    pipeline: solid::Pipeline,
    format: wgpu::TextureFormat,
    msaa: Option<MSAA>,
)
    requires
        pipeline.draws_to(format, msaa),
    ensures
        pipeline.constants_layout == (BindGroupLayout {
            label: "iced_wgpu.triangle.solid.bind_group_layout",
            entry: Uniforms::layout_entry(),
        }),
        pipeline.pipeline.label == "iced_wgpu::triangle::solid pipeline",
        pipeline.pipeline.layout == (PipelineLayout {
            label: "iced_wgpu.triangle.solid.pipeline_layout",
            bind_group_layout: pipeline.constants_layout,
        }),
        pipeline.pipeline.module.label == "iced_wgpu.triangle.solid.shader",
        pipeline.pipeline.module.files@ == seq![ShaderFile::Triangle, ShaderFile::Solid],
        pipeline.pipeline.vertex_entry_point == "solid_vs_main",
        pipeline.pipeline.fragment_entry_point == "solid_fs_main",
        pipeline.pipeline.vertices.array_stride == 24,
        pipeline.pipeline.vertices.step_mode == VertexStepMode::Vertex,
        pipeline.pipeline.vertices.attributes@ == seq![
            VertexAttribute { format: VertexFormat::Float32x2, offset: 0, shader_location: 0 },
            VertexAttribute { format: VertexFormat::Float32x4, offset: 8, shader_location: 1 },
        ],
        pipeline.pipeline.target == (ColorTargetState {
            format,
            blend: Some(BlendState::AlphaBlending),
            write_mask: ColorWrites { red: true, green: true, blue: true, alpha: true },
        }),
        pipeline.pipeline.primitive.topology == PrimitiveTopology::TriangleList,
        pipeline.pipeline.primitive.strip_index_format is None,
        pipeline.pipeline.primitive.front_face == FrontFace::Cw,
        pipeline.pipeline.primitive.cull_mode is None,
        !pipeline.pipeline.primitive.unclipped_depth,
        pipeline.pipeline.primitive.polygon_mode == PolygonMode::Fill,
        !pipeline.pipeline.primitive.conservative,
        pipeline.pipeline.depth_stencil is None,
        pipeline.pipeline.multiview is None,
        pipeline.pipeline.multisample == (MultisampleState {
            count: match msaa {
                None => 1u32,
                Some(MSAA::X2) => 2u32,
                Some(MSAA::X4) => 4u32,
                Some(MSAA::X8) => 8u32,
                Some(MSAA::X16) => 16u32,
            },
            mask: 0xffff_ffff_ffff_ffff,
            alpha_to_coverage_enabled: false,
        }),
{
    reveal_with_fuel(resource::attributes_size, 3);
    assert(pipeline.pipeline.vertices.attributes@ =~= seq![
        VertexAttribute { format: VertexFormat::Float32x2, offset: 0, shader_location: 0 },
        VertexAttribute { format: VertexFormat::Float32x4, offset: 8, shader_location: 1 },
    ]);
}

/// The pipeline for gradients in full: whatever the strategy, only the number of samples
/// depends on it, and only the last shader file on gamma correction.
pub proof fn gradient_pipelines_in_full(
    pipeline: gradient::Pipeline,
    format: wgpu::TextureFormat,
    msaa: Option<MSAA>,
    gamma_correction: bool,
)
    requires
        pipeline.draws_to(format, msaa, gamma_correction),
    ensures
        pipeline.constants_layout == (BindGroupLayout {
            label: "iced_wgpu.triangle.gradient.bind_group_layout",
            entry: Uniforms::layout_entry(),
        }),
        pipeline.pipeline.label == "iced_wgpu.triangle.gradient.pipeline",
        pipeline.pipeline.layout == (PipelineLayout {
            label: "iced_wgpu.triangle.gradient.pipeline_layout",
            bind_group_layout: pipeline.constants_layout,
        }),
        pipeline.pipeline.module.label == "iced_wgpu.triangle.gradient.shader",
        pipeline.pipeline.module.files@.len() == 3,
        pipeline.pipeline.module.files@[0] == ShaderFile::Triangle,
        pipeline.pipeline.module.files@[1] == ShaderFile::Gradient,
        gamma_correction <==> pipeline.pipeline.module.files@[2] == ShaderFile::Oklab,
        !gamma_correction <==> pipeline.pipeline.module.files@[2] == ShaderFile::LinearRgb,
        pipeline.pipeline.vertex_entry_point == "gradient_vs_main",
        pipeline.pipeline.fragment_entry_point == "gradient_fs_main",
        pipeline.pipeline.vertices.array_stride == 104,
        pipeline.pipeline.vertices.step_mode == VertexStepMode::Vertex,
        pipeline.pipeline.vertices.attributes@ == seq![
            VertexAttribute { format: VertexFormat::Float32x2, offset: 0, shader_location: 0 },
            VertexAttribute { format: VertexFormat::Uint32x4, offset: 8, shader_location: 1 },
            VertexAttribute { format: VertexFormat::Uint32x4, offset: 24, shader_location: 2 },
            VertexAttribute { format: VertexFormat::Uint32x4, offset: 40, shader_location: 3 },
            VertexAttribute { format: VertexFormat::Uint32x4, offset: 56, shader_location: 4 },
            VertexAttribute { format: VertexFormat::Uint32x4, offset: 72, shader_location: 5 },
            VertexAttribute { format: VertexFormat::Float32x4, offset: 88, shader_location: 6 },
        ],
        pipeline.pipeline.target == (ColorTargetState {
            format,
            blend: Some(BlendState::AlphaBlending),
            write_mask: ColorWrites { red: true, green: true, blue: true, alpha: true },
        }),
        pipeline.pipeline.primitive.topology == PrimitiveTopology::TriangleList,
        pipeline.pipeline.primitive.strip_index_format is None,
        pipeline.pipeline.primitive.front_face == FrontFace::Cw,
        pipeline.pipeline.primitive.cull_mode is None,
        !pipeline.pipeline.primitive.unclipped_depth,
        pipeline.pipeline.primitive.polygon_mode == PolygonMode::Fill,
        !pipeline.pipeline.primitive.conservative,
        pipeline.pipeline.depth_stencil is None,
        pipeline.pipeline.multiview is None,
        pipeline.pipeline.multisample == (MultisampleState {
            count: match msaa {
                None => 1u32,
                Some(MSAA::X2) => 2u32,
                Some(MSAA::X4) => 4u32,
                Some(MSAA::X8) => 8u32,
                Some(MSAA::X16) => 16u32,
            },
            mask: 0xffff_ffff_ffff_ffff,
            alpha_to_coverage_enabled: false,
        }),
{
    reveal_with_fuel(resource::attributes_size, 8);
    assert(pipeline.pipeline.vertices.attributes@ =~= seq![
        VertexAttribute { format: VertexFormat::Float32x2, offset: 0, shader_location: 0 },
        VertexAttribute { format: VertexFormat::Uint32x4, offset: 8, shader_location: 1 },
        VertexAttribute { format: VertexFormat::Uint32x4, offset: 24, shader_location: 2 },
        VertexAttribute { format: VertexFormat::Uint32x4, offset: 40, shader_location: 3 },
        VertexAttribute { format: VertexFormat::Uint32x4, offset: 56, shader_location: 4 },
        VertexAttribute { format: VertexFormat::Uint32x4, offset: 72, shader_location: 5 },
        VertexAttribute { format: VertexFormat::Float32x4, offset: 88, shader_location: 6 },
    ]);
}

/// Two pipelines for solid colours differ in the number of samples, as far as their
/// strategies do, and in the format they draw to, and in nothing else.
pub proof fn solid_pipelines_differ_in_samples_alone(
    a: solid::Pipeline,
    b: solid::Pipeline,
    format_a: wgpu::TextureFormat,
    format_b: wgpu::TextureFormat,
    msaa_a: Option<MSAA>,
    msaa_b: Option<MSAA>,
)
    requires
        a.draws_to(format_a, msaa_a),
        b.draws_to(format_b, msaa_b),
    ensures
        a.constants_layout == b.constants_layout,
        a.pipeline.label == b.pipeline.label,
        a.pipeline.layout == b.pipeline.layout,
        a.pipeline.module.label == b.pipeline.module.label,
        a.pipeline.module.files@ == b.pipeline.module.files@,
        a.pipeline.vertex_entry_point == b.pipeline.vertex_entry_point,
        a.pipeline.vertices.array_stride == b.pipeline.vertices.array_stride,
        a.pipeline.vertices.step_mode == b.pipeline.vertices.step_mode,
        a.pipeline.vertices.attributes@ == b.pipeline.vertices.attributes@,
        a.pipeline.fragment_entry_point == b.pipeline.fragment_entry_point,
        a.pipeline.target == (ColorTargetState { format: format_a, ..b.pipeline.target }),
        b.pipeline.target.format == format_b,
        a.pipeline.primitive == b.pipeline.primitive,
        a.pipeline.depth_stencil == b.pipeline.depth_stencil,
        a.pipeline.multisample == (MultisampleState {
            count: a.pipeline.multisample.count,
            ..b.pipeline.multisample
        }),
        a.pipeline.multisample.count == b.pipeline.multisample.count <==> msaa_a == msaa_b,
        a.pipeline.multiview == b.pipeline.multiview,
{
}

/// Two pipelines for gradients with the same gamma correction differ in the number of
/// samples, as far as their strategies do, and in the format they draw to, and in nothing
/// else.
pub proof fn gradient_pipelines_differ_in_samples_alone(
    a: gradient::Pipeline,
    b: gradient::Pipeline,
    format_a: wgpu::TextureFormat,
    format_b: wgpu::TextureFormat,
    msaa_a: Option<MSAA>,
    msaa_b: Option<MSAA>,
    gamma_correction: bool,
)
    requires
        a.draws_to(format_a, msaa_a, gamma_correction),
        b.draws_to(format_b, msaa_b, gamma_correction),
    ensures
        a.constants_layout == b.constants_layout,
        a.pipeline.label == b.pipeline.label,
        a.pipeline.layout == b.pipeline.layout,
        a.pipeline.module.label == b.pipeline.module.label,
        a.pipeline.module.files@ == b.pipeline.module.files@,
        a.pipeline.vertex_entry_point == b.pipeline.vertex_entry_point,
        a.pipeline.vertices.array_stride == b.pipeline.vertices.array_stride,
        a.pipeline.vertices.step_mode == b.pipeline.vertices.step_mode,
        a.pipeline.vertices.attributes@ == b.pipeline.vertices.attributes@,
        a.pipeline.fragment_entry_point == b.pipeline.fragment_entry_point,
        a.pipeline.target == (ColorTargetState { format: format_a, ..b.pipeline.target }),
        b.pipeline.target.format == format_b,
        a.pipeline.primitive == b.pipeline.primitive,
        a.pipeline.depth_stencil == b.pipeline.depth_stencil,
        a.pipeline.multisample == (MultisampleState {
            count: a.pipeline.multisample.count,
            ..b.pipeline.multisample
        }),
        a.pipeline.multisample.count == b.pipeline.multisample.count <==> msaa_a == msaa_b,
        a.pipeline.multiview == b.pipeline.multiview,
{
}

/// What is ready for a strategy: a blit of the format if and only if there is one, and
/// both pipelines for it.
pub proof fn ready_states_in_full(
    state: State,
    format: wgpu::TextureFormat,
    msaa: Option<MSAA>,
    gamma_correction: bool,
)
    ensures
        state.ready_for(format, msaa, gamma_correction) <==> (state matches State::Ready {
            blit,
            solid,
            gradient,
        } && {
            &&& blit is Some <==> msaa is Some
            &&& blit matches Some(blit) ==> blit == (msaa::Blit { format, strategy: msaa->0 })
            &&& solid.draws_to(format, msaa)
            &&& gradient.draws_to(format, msaa, gamma_correction)
        }),
        state matches State::Ready { blit: None, .. } ==> state.strategy() == Some(None::<MSAA>),
        state matches State::Ready { blit: Some(blit), .. } ==> state.strategy() == Some(
            Some(blit.strategy),
        ),
        state is Unused ==> state.strategy() is None,
{
}

/// The text of a module: nothing for no file, the text of a file alone, and one more file
/// behind a line break.
pub proof fn texts_are_joined_by_line_breaks(
    sources: Sources,
    files: Seq<ShaderFile>,
    file: ShaderFile,
)
    ensures
        sources.text(ShaderFile::Triangle) == sources.triangle@,
        sources.text(ShaderFile::Solid) == sources.solid@,
        sources.text(ShaderFile::Gradient) == sources.gradient@,
        sources.text(ShaderFile::Oklab) == sources.oklab@,
        sources.text(ShaderFile::LinearRgb) == sources.linear_rgb@,
        sources.joined(Seq::empty()) == Seq::<char>::empty(),
        files.len() == 0 ==> sources.joined(files.push(file)) == sources.text(file),
        files.len() > 0 ==> sources.joined(files.push(file)) == sources.joined(files) + seq!['\n']
            + sources.text(file),
{
    assert(files.push(file).drop_last() =~= files);
}

/// What a layer starts with for each kind: room for a thousand vertices and the constants
/// of one mesh, nothing written, and a bind group with those constants.
pub proof fn new_families_in_full(layout: BindGroupLayout)
    ensures
        ({
            let layer = solid::new_layer(layout);
            &&& layer.vertices.raw == (BufferDescriptor {
                label: "iced_wgpu.triangle.solid.vertex_buffer",
                size: 24_000,
                usage: BufferUsages { index: false, vertex: true, uniform: false, copy_dst: true },
            })
            &&& layer.vertices.stride == 24
            &&& layer.vertices.offsets.len() == 0
            &&& layer.uniforms.raw == (BufferDescriptor {
                label: "iced_wgpu.triangle.solid.uniforms",
                size: 256,
                usage: BufferUsages { index: false, vertex: false, uniform: true, copy_dst: true },
            })
            &&& layer.uniforms.stride == 256
            &&& layer.uniforms.offsets.len() == 0
            &&& layer.constants == solid::constants_in(layer.uniforms.raw, layout)
        }),
        ({
            let layer = gradient::new_layer(layout);
            &&& layer.vertices.raw == (BufferDescriptor {
                label: "iced_wgpu.triangle.gradient.vertex_buffer",
                size: 104_000,
                usage: BufferUsages { index: false, vertex: true, uniform: false, copy_dst: true },
            })
            &&& layer.vertices.stride == 104
            &&& layer.vertices.offsets.len() == 0
            &&& layer.uniforms.raw == (BufferDescriptor {
                label: "iced_wgpu.triangle.gradient.uniforms",
                size: 256,
                usage: BufferUsages { index: false, vertex: false, uniform: true, copy_dst: true },
            })
            &&& layer.uniforms.stride == 256
            &&& layer.uniforms.offsets.len() == 0
            &&& layer.constants == gradient::constants_in(layer.uniforms.raw, layout)
        }),
{
}

} // verus!
