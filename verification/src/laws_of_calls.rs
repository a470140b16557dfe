//! What the functions give back, whoever calls them.
use crate::antialiasing::{choose_strategy, same_strategy, Antialiasing, ScaleFactor, MSAA};
use crate::buffer::Buffer;
use crate::command::{Contents, Draw, Slot, Upload};
use crate::layer::{is_addressable, Layer};
use crate::mesh::{attribute_count_of, AttributeCount, Kind, Mesh, Transformation};
use crate::msaa::Blit;
use crate::pipeline::{
    Attachment, LoadOp, Pipeline, Platform, Prepared, Rendering, State, StoreOp, Target,
    TextureFormatFeatures,
};
use crate::resource::{
    fragment_target, multisample_state, primitive_state, vertex_attributes, BindGroup,
    BindGroupLayout, BindGroupLayoutEntry, BlendState, BufferDescriptor, BufferUsages,
    ColorTargetState, ColorWrites, FrontFace, MultisampleState, PolygonMode, PrimitiveState,
    PrimitiveTopology, ShaderFile, ShaderModule, ShaderStages, VertexAttribute, VertexFormat,
};
use crate::shader::Sources;
use crate::uniforms::Uniforms;
use crate::{
    gradient, laws_of_frames, laws_of_layers, laws_of_resources, plan, resource, solid,
};
use vstd::prelude::*;

verus! {

/// A strategy is chosen as asked for if the bit for it is set, and four samples otherwise.
/// Without antialiasing there is none. Left to itself, it is none if and only if the scale
/// factor is a number greater than 2, two samples on macOS from a scale factor of 1.5 if the
/// bit for them is set, and four samples in every other case.
pub proof fn choosing_a_strategy(
    antialiasing: Antialiasing,
    scale_factor: ScaleFactor,
    macos: bool,
    flags: u32,
    msaa: Option<MSAA>,
)
    requires
        call_ensures(choose_strategy, (antialiasing, scale_factor, macos, flags), msaa),
    ensures
        ({
            let above_two = 0x4000_0000_0000_0000 < scale_factor.bits <= 0x7ff0_0000_0000_0000;
            let two = macos && 0x3ff8_0000_0000_0000 <= scale_factor.bits <= 0x7ff0_0000_0000_0000
                && flags & 2 == 2;
            match antialiasing {
                Antialiasing::Disabled => msaa is None,
                Antialiasing::MSAA(MSAA::X2) => msaa == Some(
                    if flags & 2 == 2 {
                        MSAA::X2
                    } else {
                        MSAA::X4
                    },
                ),
                Antialiasing::MSAA(MSAA::X4) => msaa == Some(MSAA::X4),
                Antialiasing::MSAA(MSAA::X8) => msaa == Some(
                    if flags & 8 == 8 {
                        MSAA::X8
                    } else {
                        MSAA::X4
                    },
                ),
                Antialiasing::MSAA(MSAA::X16) => msaa == Some(
                    if flags & 16 == 16 {
                        MSAA::X16
                    } else {
                        MSAA::X4
                    },
                ),
                Antialiasing::Automatic => {
                    &&& msaa is None <==> above_two
                    &&& msaa == Some(MSAA::X2) <==> !above_two && two
                    &&& msaa == Some(MSAA::X4) <==> !above_two && !two
                },
            }
        }),
{
}

/// Settings are told to be the same if and only if they are. A strategy tells the number of
/// samples in its name. A scale factor tells how the number with its bits compares.
pub proof fn comparing_settings(
    a: Option<MSAA>,
    b: Option<MSAA>,
    same: bool,
    msaa: MSAA,
    count: u32,
    scale_factor: ScaleFactor,
    exceeds: bool,
    reaches: bool,
)
    requires
        call_ensures(same_strategy, (a, b), same),
        call_ensures(MSAA::sample_count, (msaa,), count),
        call_ensures(ScaleFactor::exceeds_two, (scale_factor,), exceeds),
        call_ensures(ScaleFactor::reaches_one_and_a_half, (scale_factor,), reaches),
    ensures
        same <==> a == b,
        count == match msaa {
            MSAA::X2 => 2u32,
            MSAA::X4 => 4u32,
            MSAA::X8 => 8u32,
            MSAA::X16 => 16u32,
        },
        exceeds <==> 0x4000_0000_0000_0000 < scale_factor.bits <= 0x7ff0_0000_0000_0000,
        reaches <==> 0x3ff8_0000_0000_0000 <= scale_factor.bits <= 0x7ff0_0000_0000_0000,
{
}

/// Whatever the format and the strategy, the pipeline for solid colours blends by alpha and
/// writes all four channels. Two of them for the same format differ in nothing but the
/// number of samples.
pub proof fn describing_solid_pipelines(
    format: wgpu::TextureFormat,
    msaa: Option<MSAA>,
    pipeline: solid::Pipeline,
    other_msaa: Option<MSAA>,
    other: solid::Pipeline,
)
    requires
        call_ensures(solid::Pipeline::new, (format, msaa), pipeline),
        call_ensures(solid::Pipeline::new, (format, other_msaa), other),
    ensures
        pipeline.pipeline.target == (ColorTargetState {
            format,
            blend: Some(BlendState::AlphaBlending),
            write_mask: ColorWrites { red: true, green: true, blue: true, alpha: true },
        }),
        pipeline.pipeline.module.files@ == seq![ShaderFile::Triangle, ShaderFile::Solid],
        pipeline.pipeline.vertices.array_stride == 24,
        pipeline.pipeline.vertices.attributes@ == seq![
            VertexAttribute { format: VertexFormat::Float32x2, offset: 0, shader_location: 0 },
            VertexAttribute { format: VertexFormat::Float32x4, offset: 8, shader_location: 1 },
        ],
        pipeline.pipeline.multisample.count == match msaa {
            None => 1u32,
            Some(MSAA::X2) => 2u32,
            Some(MSAA::X4) => 4u32,
            Some(MSAA::X8) => 8u32,
            Some(MSAA::X16) => 16u32,
        },
        pipeline.constants_layout == other.constants_layout,
        pipeline.pipeline.label == other.pipeline.label,
        pipeline.pipeline.layout == other.pipeline.layout,
        pipeline.pipeline.module.label == other.pipeline.module.label,
        pipeline.pipeline.vertex_entry_point == other.pipeline.vertex_entry_point,
        pipeline.pipeline.vertices.step_mode == other.pipeline.vertices.step_mode,
        pipeline.pipeline.fragment_entry_point == other.pipeline.fragment_entry_point,
        pipeline.pipeline.primitive == other.pipeline.primitive,
        pipeline.pipeline.depth_stencil == other.pipeline.depth_stencil,
        pipeline.pipeline.multisample == (MultisampleState {
            count: pipeline.pipeline.multisample.count,
            ..other.pipeline.multisample
        }),
        pipeline.pipeline.multiview == other.pipeline.multiview,
        pipeline.draws_to(format, msaa),
{
    laws_of_resources::solid_pipelines_in_full(pipeline, format, msaa);
    laws_of_resources::solid_pipelines_in_full(other, format, other_msaa);
}

/// Whatever the format and the strategy, the last shader file of the pipeline for gradients
/// is the one for Oklab if and only if gamma correction is on, and the one for linear RGB if
/// and only if it is off. Two of them for the same format and gamma correction differ in
/// nothing but the number of samples.
pub proof fn describing_gradient_pipelines(
    format: wgpu::TextureFormat,
    gamma_correction: bool,
    msaa: Option<MSAA>,
    pipeline: gradient::Pipeline,
    other_msaa: Option<MSAA>,
    other: gradient::Pipeline,
)
    requires
        call_ensures(gradient::Pipeline::new, (format, msaa, gamma_correction), pipeline),
        call_ensures(gradient::Pipeline::new, (format, other_msaa, gamma_correction), other),
    ensures
        pipeline.pipeline.module.files@.len() == 3,
        pipeline.pipeline.module.files@[0] == ShaderFile::Triangle,
        pipeline.pipeline.module.files@[1] == ShaderFile::Gradient,
        pipeline.pipeline.module.files@.last() == ShaderFile::Oklab <==> gamma_correction,
        pipeline.pipeline.module.files@.last() == ShaderFile::LinearRgb <==> !gamma_correction,
        pipeline.pipeline.target == (ColorTargetState {
            format,
            blend: Some(BlendState::AlphaBlending),
            write_mask: ColorWrites { red: true, green: true, blue: true, alpha: true },
        }),
        pipeline.pipeline.vertices.array_stride == 104,
        pipeline.pipeline.vertices.attributes@ == seq![
            VertexAttribute { format: VertexFormat::Float32x2, offset: 0, shader_location: 0 },
            VertexAttribute { format: VertexFormat::Uint32x4, offset: 8, shader_location: 1 },
            VertexAttribute { format: VertexFormat::Uint32x4, offset: 24, shader_location: 2 },
            VertexAttribute { format: VertexFormat::Uint32x4, offset: 40, shader_location: 3 },
            VertexAttribute { format: VertexFormat::Uint32x4, offset: 56, shader_location: 4 },
            VertexAttribute { format: VertexFormat::Uint32x4, offset: 72, shader_location: 5 },
            VertexAttribute { format: VertexFormat::Float32x4, offset: 88, shader_location: 6 },
        ],
        pipeline.pipeline.multisample.count == match msaa {
            None => 1u32,
            Some(MSAA::X2) => 2u32,
            Some(MSAA::X4) => 4u32,
            Some(MSAA::X8) => 8u32,
            Some(MSAA::X16) => 16u32,
        },
        pipeline.constants_layout == other.constants_layout,
        pipeline.pipeline.label == other.pipeline.label,
        pipeline.pipeline.layout == other.pipeline.layout,
        pipeline.pipeline.module.label == other.pipeline.module.label,
        pipeline.pipeline.module.files@ == other.pipeline.module.files@,
        pipeline.pipeline.vertex_entry_point == other.pipeline.vertex_entry_point,
        pipeline.pipeline.vertices.step_mode == other.pipeline.vertices.step_mode,
        pipeline.pipeline.fragment_entry_point == other.pipeline.fragment_entry_point,
        pipeline.pipeline.primitive == other.pipeline.primitive,
        pipeline.pipeline.depth_stencil == other.pipeline.depth_stencil,
        pipeline.pipeline.multisample == (MultisampleState {
            count: pipeline.pipeline.multisample.count,
            ..other.pipeline.multisample
        }),
        pipeline.pipeline.multiview == other.pipeline.multiview,
        pipeline.draws_to(format, msaa, gamma_correction),
{
    laws_of_resources::gradient_pipelines_in_full(pipeline, format, msaa, gamma_correction);
    laws_of_resources::gradient_pipelines_in_full(other, format, other_msaa, gamma_correction);
}

/// The parts that both pipelines are made of.
pub proof fn describing_shared_parts(
    format: wgpu::TextureFormat,
    target: ColorTargetState,
    primitive: PrimitiveState,
    msaa: Option<MSAA>,
    multisample: MultisampleState,
)
    requires
        call_ensures(fragment_target, (format,), target),
        call_ensures(primitive_state, (), primitive),
        call_ensures(multisample_state, (msaa,), multisample),
    ensures
        target == (ColorTargetState {
            format,
            blend: Some(BlendState::AlphaBlending),
            write_mask: ColorWrites { red: true, green: true, blue: true, alpha: true },
        }),
        primitive == (PrimitiveState {
            topology: PrimitiveTopology::TriangleList,
            strip_index_format: None,
            front_face: FrontFace::Cw,
            cull_mode: None,
            unclipped_depth: false,
            polygon_mode: PolygonMode::Fill,
            conservative: false,
        }),
        multisample == (MultisampleState {
            count: match msaa {
                None => 1u32,
                Some(MSAA::X2) => 2u32,
                Some(MSAA::X4) => 4u32,
                Some(MSAA::X8) => 8u32,
                Some(MSAA::X16) => 16u32,
            },
            mask: 0xffff_ffff_ffff_ffff,
            alpha_to_coverage_enabled: false,
        }),
{
}

/// Attributes keep their formats and locations, and lie one right behind another.
pub proof fn laying_out_attributes(
    formats: &[(u32, VertexFormat)],
    attributes: Vec<VertexAttribute>,
)
    requires
        resource::attributes_size(formats@, formats@.len() as int) <= u64::MAX,
        call_ensures(vertex_attributes, (formats,), attributes),
    ensures
        attributes@.len() == formats@.len(),
        forall|i: int|
            0 <= i < formats@.len() ==> (#[trigger] attributes@[i]).format == formats@[i].1
                && attributes@[i].shader_location == formats@[i].0,
        formats@.len() > 0 ==> attributes@[0].offset == 0,
        forall|i: int, j: int|
            0 <= i && j == i + 1 && j < formats@.len() ==> (#[trigger] attributes@[j]).offset == (
            #[trigger] attributes@[i]).offset + (match formats@[i].1 {
                VertexFormat::Float32x2 => 8int,
                VertexFormat::Float32x4 => 16int,
                VertexFormat::Uint32x4 => 16int,
            }),
{
    laws_of_resources::attributes_follow_one_another(formats@);
}

/// The constants of a mesh are the words of its transformation and forty-eight zeros, bound
/// as 256 bytes at binding 0.
pub proof fn describing_constants(
    transform: Transformation,
    uniforms: Uniforms,
    entry: BindGroupLayoutEntry,
    size: Option<u64>,
    buffer: BufferDescriptor,
    layout: BindGroupLayout,
    solid_group: BindGroup,
    gradient_group: BindGroup,
)
    requires
        call_ensures(Uniforms::new, (transform,), uniforms),
        call_ensures(Uniforms::entry, (), entry),
        call_ensures(Uniforms::min_size, (), size),
        call_ensures(solid::Layer::bind_group, (&buffer, &layout), solid_group),
        call_ensures(gradient::Layer::bind_group, (&buffer, &layout), gradient_group),
    ensures
        uniforms.transform == transform.bits,
        forall|i: int| 0 <= i < 48 ==> #[trigger] uniforms.padding@[i] == 0,
        entry == (BindGroupLayoutEntry {
            binding: 0,
            visibility: ShaderStages { vertex: true, fragment: true, compute: false },
            has_dynamic_offset: true,
            min_binding_size: Some(256u64),
            count: None,
        }),
        size == Some(256u64),
        solid_group == (BindGroup {
            label: "iced_wgpu.triangle.solid.bind_group",
            layout,
            binding: 0,
            buffer,
            offset: 0,
            size: Some(256u64),
        }),
        gradient_group == (BindGroup {
            label: "iced_wgpu.triangle.gradient.bind_group",
            layout,
            binding: 0,
            buffer,
            offset: 0,
            size: Some(256u64),
        }),
{
}

/// A buffer starts with room for the given elements and remembers nothing.
pub proof fn describing_buffers(
    label: &'static str,
    stride: usize,
    amount: usize,
    usage: BufferUsages,
    buffer: Buffer,
)
    requires
        stride * amount <= u64::MAX,
        call_ensures(Buffer::new, (label, stride, amount, usage), buffer),
    ensures
        buffer.raw.label == label,
        buffer.raw.size == stride * amount,
        buffer.raw.usage == usage,
        buffer.stride == stride,
        buffer.offsets@.len() == 0,
{
}

/// A buffer is replaced if and only if it is too small, by one of just the size it takes.
/// Nothing else of it changes.
pub proof fn making_room_in_buffers(buffer: &mut Buffer, count: usize, resized: bool)
    requires
        old(buffer).stride * count <= u64::MAX,
        call_ensures(Buffer::resize, (buffer, count), resized),
    ensures
        resized <==> old(buffer).raw.size < old(buffer).stride * count,
        final(buffer).raw.size == if resized {
            old(buffer).stride * count
        } else {
            old(buffer).raw.size as int
        },
        final(buffer).raw.label == old(buffer).raw.label,
        final(buffer).raw.usage == old(buffer).raw.usage,
        final(buffer).stride == old(buffer).stride,
        final(buffer).offsets@ == old(buffer).offsets@,
{
    assert(final(buffer)@.stride == old(buffer)@.stride);
    assert(final(buffer)@.offsets == old(buffer)@.offsets);
}

/// A buffer remembers one more place when it is written to, and tells how many bytes that
/// takes.
pub proof fn writing_to_buffers(buffer: &mut Buffer, offset: usize, len: usize, written: usize)
    requires
        call_ensures(Buffer::write, (buffer, offset, len), written),
    ensures
        written == old(buffer).stride * len,
        final(buffer).offsets@ == old(buffer).offsets@.push(offset as u64),
        final(buffer).raw == old(buffer).raw,
        final(buffer).stride == old(buffer).stride,
{
    assert(final(buffer)@.stride == old(buffer)@.stride);
    assert(final(buffer)@.offsets == old(buffer)@.offsets.push(offset as u64));
    assert(final(buffer)@.raw == old(buffer)@.raw);
}

/// A buffer that is cleared remembers nothing, and is otherwise as it was.
pub proof fn clearing_buffers(buffer: &mut Buffer)
    requires
        call_ensures(Buffer::clear, (buffer,), ()),
    ensures
        final(buffer).offsets@.len() == 0,
        final(buffer).raw == old(buffer).raw,
        final(buffer).stride == old(buffer).stride,
{
    assert(final(buffer)@.stride == old(buffer)@.stride);
    assert(final(buffer)@.offsets == Seq::<u64>::empty());
    assert(final(buffer)@.raw == old(buffer)@.raw);
}

/// A buffer tells where the write with the given number started.
pub proof fn looking_up_places(buffer: &Buffer, index: usize, offset: u64)
    requires
        index < buffer.offsets@.len(),
        call_ensures(Buffer::slice_from_index, (buffer, index), offset),
    ensures
        offset == buffer.offsets@[index as int],
{
}

/// Meshes are counted by adding up what they hold.
pub proof fn counting_meshes(meshes: &[Mesh], count: AttributeCount, addressable: bool)
    requires
        call_ensures(attribute_count_of, (meshes,), count),
        call_ensures(is_addressable, (meshes,), addressable),
    ensures
        ({
            let solids = laws_of_layers::of_kind(meshes@, Kind::Solid);
            let gradients = laws_of_layers::of_kind(meshes@, Kind::Gradient);
            let indices = laws_of_layers::total_indices(meshes@);
            let solid_vertices = laws_of_layers::total_vertices(solids);
            let gradient_vertices = laws_of_layers::total_vertices(gradients);
            &&& count.indices == indices
            &&& count.solids == solids.len()
            &&& count.gradients == gradients.len()
            &&& count.solid_vertices == solid_vertices
            &&& count.gradient_vertices == gradient_vertices
            &&& addressable <==> {
                &&& 4 * indices <= usize::MAX
                &&& 24 * solid_vertices <= usize::MAX
                &&& 104 * gradient_vertices <= usize::MAX
                &&& 256 * solids.len() <= usize::MAX
                &&& 256 * gradients.len() <= usize::MAX
            }
        }),
{
    let n = meshes@.len() as int;
    assert(meshes@.take(n) =~= meshes@);
    laws_of_layers::meshes_are_counted_by_adding_up(meshes@, Kind::Solid, n);
    laws_of_layers::meshes_are_counted_by_adding_up(meshes@, Kind::Gradient, n);
    laws_of_layers::addressable_in_numbers(meshes@);
}

/// The text of a module of one, two or three files: their texts with a line break between
/// every two of them.
pub proof fn putting_text_together(
    sources: &Sources,
    file: ShaderFile,
    text: &str,
    module: &ShaderModule,
    source: String,
)
    requires
        call_ensures(Sources::file, (sources, file), text),
        call_ensures(ShaderModule::source, (module, sources), source),
    ensures
        text@ == match file {
            ShaderFile::Triangle => sources.triangle@,
            ShaderFile::Solid => sources.solid@,
            ShaderFile::Gradient => sources.gradient@,
            ShaderFile::Oklab => sources.oklab@,
            ShaderFile::LinearRgb => sources.linear_rgb@,
        },
        module.files@.len() == 0 ==> source@.len() == 0,
        module.files@.len() == 1 ==> source@ == sources.text(module.files@[0]),
        module.files@.len() == 2 ==> source@ == sources.text(module.files@[0]) + seq!['\n']
            + sources.text(module.files@[1]),
        module.files@.len() == 3 ==> source@ == sources.text(module.files@[0]) + seq!['\n']
            + sources.text(module.files@[1]) + seq!['\n'] + sources.text(module.files@[2]),
{
    reveal_with_fuel(Sources::joined, 4);
}

/// A new layer, and the steps that create what it starts with.
pub proof fn describing_layers(
    solid: &solid::Pipeline,
    gradient: &gradient::Pipeline,
    layer: Layer,
    uploads: Vec<Upload>,
)
    requires
        call_ensures(Layer::new, (solid, gradient), layer),
        call_ensures(Layer::creations, (&layer,), uploads),
    ensures
        layer.index_buffer.raw.size == 4_000,
        layer.index_buffer.stride == 4,
        layer.index_buffer.offsets@.len() == 0,
        layer.index_strides@.len() == 0,
        layer.solid.vertices.raw.size == 24_000,
        layer.solid.vertices.stride == 24,
        layer.solid.uniforms.raw.size == 256,
        layer.solid.uniforms.stride == 256,
        layer.solid.constants.buffer == layer.solid.uniforms.raw,
        layer.solid.constants.layout == solid.constants_layout,
        layer.gradient.vertices.raw.size == 104_000,
        layer.gradient.vertices.stride == 104,
        layer.gradient.uniforms.raw.size == 256,
        layer.gradient.uniforms.stride == 256,
        layer.gradient.constants.buffer == layer.gradient.uniforms.raw,
        layer.gradient.constants.layout == gradient.constants_layout,
        layer@ == plan::new_layer(solid.constants_layout, gradient.constants_layout),
        uploads@ == seq![
            Upload::CreateBuffer { slot: Slot::Indices, buffer: layer.index_buffer.raw },
            Upload::CreateBuffer {
                slot: Slot::Vertices(Kind::Solid),
                buffer: layer.solid.vertices.raw,
            },
            Upload::CreateBuffer {
                slot: Slot::Uniforms(Kind::Solid),
                buffer: layer.solid.uniforms.raw,
            },
            Upload::CreateBindGroup { kind: Kind::Solid, group: layer.solid.constants },
            Upload::CreateBuffer {
                slot: Slot::Vertices(Kind::Gradient),
                buffer: layer.gradient.vertices.raw,
            },
            Upload::CreateBuffer {
                slot: Slot::Uniforms(Kind::Gradient),
                buffer: layer.gradient.uniforms.raw,
            },
            Upload::CreateBindGroup { kind: Kind::Gradient, group: layer.gradient.constants },
        ],
{
    laws_of_layers::layers_show_their_fields(
        layer.index_buffer,
        layer.solid,
        layer.gradient,
        layer,
    );
    laws_of_layers::layers_show_their_fields(
        layer.solid.vertices,
        layer.solid,
        layer.gradient,
        layer,
    );
    laws_of_layers::layers_show_their_fields(
        layer.solid.uniforms,
        layer.solid,
        layer.gradient,
        layer,
    );
    laws_of_layers::layers_show_their_fields(
        layer.gradient.vertices,
        layer.solid,
        layer.gradient,
        layer,
    );
    laws_of_layers::layers_show_their_fields(
        layer.gradient.uniforms,
        layer.solid,
        layer.gradient,
        layer,
    );
    laws_of_layers::new_layers_in_full(solid.constants_layout, gradient.constants_layout);
    laws_of_resources::new_families_in_full(solid.constants_layout);
    laws_of_resources::new_families_in_full(gradient.constants_layout);
    laws_of_layers::creations_in_full(layer@);
}

/// Preparing a layer gives back three writes for each mesh, at the end and in order, and no
/// other: of the mesh's own indices, behind those of the meshes before it; of its own
/// vertices, behind those of its kind before it; and of 256 bytes, made of the words of its
/// own transformation and zeros, at 256 times the number of meshes of its kind before it.
pub proof fn preparing_layers(
    layer: &mut Layer,
    solid: &solid::Pipeline,
    gradient: &gradient::Pipeline,
    meshes: &[Mesh],
    uploads: Vec<Upload>,
    i: int,
)
    requires
        plan::addressable(meshes@),
        call_ensures(Layer::prepare, (layer, solid, gradient, meshes), uploads),
        0 <= i < meshes@.len(),
    ensures
        ({
            let first = uploads@.len() - 3 * meshes@.len();
            let kind = laws_of_layers::kind_of(meshes@[i]);
            let before = meshes@.take(i);
            let siblings = laws_of_layers::of_kind(before, kind);
            &&& 0 <= first
            &&& forall|k: int| 0 <= k < first ==> !(#[trigger] uploads@[k] is Write)
            &&& uploads@[first + 3 * i] matches Upload::Write { slot, offset, contents } && {
                &&& slot == Slot::Indices
                &&& offset == 4 * laws_of_layers::total_indices(before)
                &&& contents matches Contents::Indices(number) && number == i
            }
            &&& uploads@[first + 3 * i + 1] matches Upload::Write { slot, offset, contents } && {
                &&& slot == Slot::Vertices(kind)
                &&& offset == laws_of_layers::vertex_bytes(kind) * laws_of_layers::total_vertices(
                    siblings,
                )
                &&& contents matches Contents::Vertices(number) && number == i
            }
            &&& uploads@[first + 3 * i + 2] matches Upload::Write { slot, offset, contents } && {
                &&& slot == Slot::Uniforms(kind)
                &&& offset == 256 * siblings.len()
                &&& contents matches Contents::Uniforms(uniforms) && {
                    &&& uniforms.transform == laws_of_layers::words_of(meshes@[i])
                    &&& forall|k: int| 0 <= k < 48 ==> #[trigger] uniforms.padding@[k] == 0
                }
            }
            &&& uploads@ == old(layer)@.uploads(
                meshes@,
                solid.constants_layout,
                gradient.constants_layout,
            )
            &&& final(layer)@ == old(layer)@.prepared(
                meshes@,
                solid.constants_layout,
                gradient.constants_layout,
            )
        }),
{
    laws_of_layers::there_are_three_writes_per_mesh(
        old(layer)@,
        meshes@,
        solid.constants_layout,
        gradient.constants_layout,
    );
    laws_of_layers::meshes_are_written_with_their_own_data(
        old(layer)@,
        meshes@,
        solid.constants_layout,
        gradient.constants_layout,
        i,
    );
}

/// Rendering a layer draws just the meshes whose clip bounds have a width and a height of at
/// least one pixel, wherever they lie: each once, in order, with its clip bounds as the
/// scissor rectangle and by the pipeline of its kind.
pub proof fn rendering_layers(layer: &Layer, meshes: &[Mesh], commands: Vec<Draw>)
    requires
        call_ensures(Layer::render, (layer, meshes), commands),
    ensures
        ({
            let draws = laws_of_layers::drawn(commands@);
            let shown = meshes@.filter(
                |mesh: Mesh|
                    laws_of_layers::bounds_of(mesh).width >= 1 && laws_of_layers::bounds_of(
                        mesh,
                    ).height >= 1,
            );
            &&& draws.len() == shown.len()
            &&& forall|j: int|
                0 <= j < shown.len() ==> (#[trigger] draws[j]).0.scissor == Some(
                    laws_of_layers::bounds_of(shown[j]),
                ) && draws[j].0.pipeline == Some(laws_of_layers::kind_of(shown[j]))
            &&& forall|j: int|
                0 <= j < draws.len() ==> ((#[trigger] draws[j]).0.scissor matches Some(bounds)
                    && bounds.width >= 1 && bounds.height >= 1)
            &&& commands@ == plan::draws(layer@, meshes@, meshes@.len() as int)
        }),
{
    laws_of_layers::just_the_meshes_on_screen_are_drawn(layer@, meshes@);
}

/// A mesh on screen is drawn with the data that preparing the layer wrote for it, provided
/// that no mesh of its kind before it is off screen.
pub proof fn rendering_what_was_prepared(
    layer: &mut Layer,
    solid: &solid::Pipeline,
    gradient: &gradient::Pipeline,
    meshes: &[Mesh],
    uploads: Vec<Upload>,
    prepared: &Layer,
    commands: Vec<Draw>,
    i: int,
)
    requires
        plan::addressable(meshes@),
        call_ensures(Layer::prepare, (layer, solid, gradient, meshes), uploads),
        *prepared == *final(layer),
        call_ensures(Layer::render, (prepared, meshes), commands),
        0 <= i < meshes@.len(),
        laws_of_layers::on_screen(meshes@[i]),
        forall|j: int|
            0 <= j < i && laws_of_layers::kind_of(#[trigger] meshes@[j])
                == laws_of_layers::kind_of(meshes@[i]) ==> laws_of_layers::on_screen(meshes@[j]),
    ensures
        ({
            let kind = laws_of_layers::kind_of(meshes@[i]);
            let first = uploads@.len() - 3 * meshes@.len();
            let draws = laws_of_layers::drawn(commands@);
            let (setup, draw) = draws[laws_of_layers::drawable(meshes@.take(i)).len() as int];
            &&& setup.scissor == Some(laws_of_layers::bounds_of(meshes@[i]))
            &&& setup.pipeline == Some(kind)
            &&& setup.indices matches Some((slot, offset, _)) && uploads@[first + 3 * i]
                == Upload::Write { slot, offset, contents: Contents::Indices(i as usize) }
            &&& setup.vertices matches Some((_, slot, offset)) && uploads@[first + 3 * i + 1]
                == Upload::Write { slot, offset, contents: Contents::Vertices(i as usize) }
            &&& setup.constants matches Some((_, group, dynamic_offset)) && {
                &&& group == kind
                &&& uploads@[first + 3 * i + 2] matches Upload::Write { slot, offset, contents }
                    && {
                    &&& slot == Slot::Uniforms(kind)
                    &&& dynamic_offset == laws_of_layers::lower_bits(offset as nat)
                    &&& contents matches Contents::Uniforms(uniforms) && uniforms.transform
                        == laws_of_layers::words_of(meshes@[i])
                }
            }
            &&& draw matches Draw::DrawIndexed { first_index, end_index, .. } && first_index == 0
                && end_index == laws_of_layers::lower_bits(
                laws_of_layers::data_of(meshes@[i]).indices as nat,
            )
        }),
{
    let solid_layout = solid.constants_layout;
    let gradient_layout = gradient.constants_layout;
    laws_of_layers::meshes_on_screen_are_drawn_in_their_bounds(
        old(layer)@,
        meshes@,
        solid_layout,
        gradient_layout,
        i,
    );
    laws_of_layers::meshes_on_screen_are_drawn_with_their_own_data(
        old(layer)@,
        meshes@,
        solid_layout,
        gradient_layout,
        i,
    );
}

/// A layer tells that meshes can be rendered if and only if it remembers, for each one on
/// screen, its indices, and vertices for it and each one of its kind on screen before it.
pub proof fn asking_whether_layers_can_be_rendered(layer: &Layer, meshes: &[Mesh], result: bool)
    requires
        call_ensures(Layer::can_render, (layer, meshes), result),
    ensures
        result <==> forall|i: int|
            0 <= i < meshes@.len() && laws_of_layers::on_screen(#[trigger] meshes@[i]) ==> {
                let kind = laws_of_layers::kind_of(meshes@[i]);
                let earlier = laws_of_layers::of_kind(
                    laws_of_layers::drawable(meshes@.take(i)),
                    kind,
                ).len();
                &&& i < layer.index_strides@.len()
                &&& i < layer.index_buffer.offsets@.len()
                &&& kind == Kind::Solid ==> earlier < layer.solid.vertices.offsets@.len()
                &&& kind == Kind::Gradient ==> earlier < layer.gradient.vertices.offsets@.len()
            },
{
    laws_of_layers::renderable_in_numbers(layer@, meshes@);
}

/// A new pipeline is unused, without layers, for the format and the platform given. A blit
/// samples as it was told to.
pub proof fn describing_pipelines(
    format: wgpu::TextureFormat,
    format_features: TextureFormatFeatures,
    platform: Platform,
    pipeline: Pipeline,
    state: &State,
    strategy: MSAA,
    blit: Blit,
    told: MSAA,
)
    requires
        call_ensures(Pipeline::new, (format, format_features, platform), pipeline),
        call_ensures(Pipeline::state, (&pipeline,), state),
        call_ensures(Blit::new, (format, strategy), blit),
        call_ensures(Blit::strategy, (&blit,), told),
    ensures
        pipeline@.format == format,
        pipeline@.format_features == format_features,
        pipeline@.platform == platform,
        pipeline@.layers.len() == 0,
        pipeline@.prepare_layer == 0,
        *state is Unused,
        pipeline@.wf(),
        blit.format == format,
        told == strategy,
{
}

/// Ending a frame makes the next layer to prepare the first one, and keeps all else.
pub proof fn ending_frames(pipeline: &mut Pipeline)
    requires
        call_ensures(Pipeline::end_frame, (pipeline,), ()),
    ensures
        final(pipeline)@.prepare_layer == 0,
        final(pipeline)@.format == old(pipeline)@.format,
        final(pipeline)@.format_features == old(pipeline)@.format_features,
        final(pipeline)@.platform == old(pipeline)@.platform,
        final(pipeline)@.layers == old(pipeline)@.layers,
        final(pipeline)@.state == old(pipeline)@.state,
{
}

/// Compiling creates something if and only if the pipeline does not sample as chosen. If it
/// does, nothing changes. Otherwise all is ready for the strategy, the layers are gone, and
/// the rest stays.
pub proof fn compiling_pipelines(
    pipeline: &mut Pipeline,
    antialiasing: Antialiasing,
    target: &Target,
    msaa: Option<MSAA>,
    compiled: bool,
)
    requires
        old(pipeline)@.settled(),
        call_ensures(Pipeline::compile, (pipeline, antialiasing, target), compiled),
        call_ensures(
            choose_strategy,
            (
                antialiasing,
                target.scale_factor,
                old(pipeline)@.platform.macos,
                old(pipeline)@.format_features.flags,
            ),
            msaa,
        ),
    ensures
        compiled <==> !laws_of_frames::samples_with(old(pipeline)@.state, msaa),
        laws_of_frames::samples_with(final(pipeline)@.state, msaa),
        final(pipeline)@.state matches State::Ready { blit, solid, gradient } && {
            &&& blit matches Some(blit) ==> blit.format == old(pipeline)@.format
            &&& solid.draws_to(old(pipeline)@.format, msaa)
            &&& gradient.draws_to(
                old(pipeline)@.format,
                msaa,
                old(pipeline)@.platform.gamma_correction,
            )
        },
        final(pipeline)@.format == old(pipeline)@.format,
        final(pipeline)@.format_features == old(pipeline)@.format_features,
        final(pipeline)@.platform == old(pipeline)@.platform,
        compiled ==> final(pipeline)@.layers.len() == 0 && final(pipeline)@.prepare_layer == 0,
        !compiled ==> final(pipeline)@ == old(pipeline)@,
{
    laws_of_frames::compiling_in_full(
        old(pipeline)@,
        final(pipeline)@,
        antialiasing,
        *target,
        compiled,
    );
}

/// Preparing goes on with the layer behind those that were prepared in this frame, and only
/// the first one may compile. A layer is created if all are gone or used up. It is prepared
/// for the meshes, and all other layers stay. Nothing is done only if the pipeline is unused
/// and the layer not the first of the frame.
pub proof fn preparing_frames(
    pipeline: &mut Pipeline,
    antialiasing: Antialiasing,
    target: &Target,
    meshes: &[Mesh],
    msaa: Option<MSAA>,
    result: Option<Prepared>,
)
    requires
        old(pipeline)@.wf() || old(pipeline)@.stalled(),
        call_ensures(Pipeline::prepare, (pipeline, antialiasing, target, meshes), result),
        call_ensures(
            choose_strategy,
            (
                antialiasing,
                target.scale_factor,
                old(pipeline)@.platform.macos,
                old(pipeline)@.format_features.flags,
            ),
            msaa,
        ),
    ensures
        ({
            let pre = old(pipeline)@;
            let post = final(pipeline)@;
            &&& result is None <==> pre.state is Unused && pre.prepare_layer > 0
            &&& result is None ==> post == pre
            &&& result matches Some(prepared) ==> {
                let layer = laws_of_frames::base_layer(pre, prepared);
                let solid_layout = solid::constants_layout();
                let gradient_layout = gradient::constants_layout();
                &&& prepared.layer == pre.prepare_layer
                &&& prepared.compiled <==> pre.prepare_layer == 0 && !laws_of_frames::samples_with(
                    pre.state,
                    msaa,
                )
                &&& prepared.created <==> prepared.compiled || pre.prepare_layer
                    == pre.layers.len()
                &&& prepared.uploads@ == (if prepared.created {
                    layer.creations()
                } else {
                    Seq::empty()
                }) + layer.uploads(meshes@, solid_layout, gradient_layout)
                &&& post.format == pre.format
                &&& post.format_features == pre.format_features
                &&& post.platform == pre.platform
                &&& post.prepare_layer == pre.prepare_layer + 1
                &&& post.layers.len() == if prepared.compiled {
                    1
                } else if prepared.created {
                    pre.layers.len() + 1
                } else {
                    pre.layers.len()
                }
                &&& post.layers[prepared.layer as int] == layer.prepared(
                    meshes@,
                    solid_layout,
                    gradient_layout,
                )
                &&& !prepared.compiled ==> post.state == pre.state && forall|i: int|
                    0 <= i < pre.layers.len() && i != prepared.layer ==> #[trigger] post.layers[i]
                        == pre.layers[i]
                &&& prepared.compiled ==> laws_of_frames::samples_with(post.state, msaa)
            }
            &&& pre.wf() ==> post.wf()
        }),
{
    if let Some(prepared) = result {
        laws_of_frames::preparing_in_full(
            old(pipeline)@,
            final(pipeline)@,
            antialiasing,
            *target,
            meshes@,
            prepared,
        );
    }
}

/// Rendering is possible if and only if all is ready. With a blit, a layer is drawn to a
/// cleared texture of the target's size and many samples, resolved, and blitted to the
/// frame. Without, it is drawn straight over what the frame holds.
pub proof fn rendering_frames(
    pipeline: &Pipeline,
    target: &Target,
    layer: usize,
    meshes: &[Mesh],
    result: Option<Rendering>,
    possible: bool,
)
    requires
        call_ensures(Pipeline::render, (pipeline, target, layer, meshes), result),
        call_ensures(Pipeline::can_render, (pipeline, layer, meshes), possible),
    ensures
        result is Some <==> pipeline@.state is Ready,
        result matches Some(rendering) ==> {
            let multisampled = pipeline@.state->blit is Some;
            &&& rendering.targets == if multisampled {
                Some(target.physical_size)
            } else {
                None
            }
            &&& rendering.draw_blit <==> multisampled
            &&& rendering.pass.label == "iced_wgpu.triangle.render_pass"
            &&& rendering.pass.store == StoreOp::Store
            &&& multisampled ==> {
                &&& rendering.pass.view == Attachment::Multisampled
                &&& rendering.pass.resolve_target == Some(Attachment::Resolved)
                &&& rendering.pass.load == LoadOp::ClearTransparent
            }
            &&& !multisampled ==> {
                &&& rendering.pass.view == Attachment::Frame
                &&& rendering.pass.resolve_target is None
                &&& rendering.pass.load == LoadOp::Load
            }
            &&& rendering.commands@ == plan::draws(
                pipeline@.layers[layer as int],
                meshes@,
                meshes@.len() as int,
            )
        },
        possible <==> layer < pipeline@.layers.len() && pipeline@.layers[layer as int].renderable(
            meshes@,
        ),
{
}

} // verus!
