use triangle::antialiasing::MSAA;
use triangle::buffer::Buffer;
use triangle::mesh::Transformation;
use triangle::msaa::Blit;
use triangle::resource::{
    fragment_target, multisample_state, primitive_state, vertex_attributes, BindGroup,
    BindGroupLayout, BindGroupLayoutEntry, BlendState, BufferDescriptor, BufferUsages,
    ColorTargetState, ColorWrites, FrontFace, MultisampleState, PipelineLayout, PolygonMode,
    PrimitiveState, PrimitiveTopology, ShaderFile, ShaderModule, ShaderStages, VertexAttribute,
    VertexFormat, VertexStepMode,
};
use triangle::shader::Sources;
use triangle::uniforms::UNIFORMS_SIZE;
use triangle::{gradient, solid, Uniforms};

const FORMAT: wgpu::TextureFormat = wgpu::TextureFormat::Bgra8UnormSrgb;

const VERTEX_USAGE: BufferUsages =
    BufferUsages { index: false, vertex: true, uniform: false, copy_dst: true };

const UNIFORM_USAGE: BufferUsages =
    BufferUsages { index: false, vertex: false, uniform: true, copy_dst: true };

fn constants_entry() -> BindGroupLayoutEntry {
    BindGroupLayoutEntry {
        binding: 0,
        visibility: ShaderStages { vertex: true, fragment: true, compute: false },
        has_dynamic_offset: true,
        min_binding_size: Some(256),
        count: None,
    }
}

fn attribute(shader_location: u32, offset: u64, format: VertexFormat) -> VertexAttribute {
    VertexAttribute { format, offset, shader_location }
}

#[test]
fn uniforms_are_padded_with_zeros() {
    let mut bits = [0u32; 16];
    for (i, word) in bits.iter_mut().enumerate() {
        *word = (i as f32 + 0.5).to_bits();
    }

    let uniforms = Uniforms::new(Transformation { bits });

    assert_eq!(uniforms.transform, bits);
    assert_eq!(uniforms.padding, [0.0f32.to_bits(); 48]);
    assert_eq!(std::mem::size_of::<Uniforms>(), UNIFORMS_SIZE);
}

#[test]
fn uniforms_describe_their_binding() {
    assert_eq!(Uniforms::entry(), constants_entry());
    assert_eq!(Uniforms::min_size(), Some(256));
    assert_eq!(
        Uniforms::min_size().map(|size| wgpu::BufferSize::new(size).unwrap().get()),
        Some(256),
    );
}

#[test]
fn targets_are_blended_by_alpha() {
    assert_eq!(
        fragment_target(FORMAT),
        ColorTargetState {
            format: FORMAT,
            blend: Some(BlendState::AlphaBlending),
            write_mask: ColorWrites { red: true, green: true, blue: true, alpha: true },
        },
    );
}

#[test]
fn primitives_are_clockwise_triangles() {
    let default = wgpu::PrimitiveState::default();

    assert_eq!(
        primitive_state(),
        PrimitiveState {
            topology: PrimitiveTopology::TriangleList,
            strip_index_format: None,
            front_face: FrontFace::Cw,
            cull_mode: None,
            unclipped_depth: default.unclipped_depth,
            polygon_mode: PolygonMode::Fill,
            conservative: default.conservative,
        },
    );
    assert_eq!(default.strip_index_format, None);
    assert_eq!(default.cull_mode, None);
    assert_eq!(default.polygon_mode, wgpu::PolygonMode::Fill);
}

#[test]
fn every_sample_is_written() {
    for (msaa, count) in [(None, 1), (Some(MSAA::X2), 2), (Some(MSAA::X4), 4), (Some(MSAA::X8), 8)] {
        assert_eq!(
            multisample_state(msaa),
            MultisampleState { count, mask: !0, alpha_to_coverage_enabled: false },
        );
    }
}

#[test]
fn attributes_are_packed() {
    assert_eq!(vertex_attributes(&[]), vec![]);
    assert_eq!(
        vertex_attributes(&[
            (3, VertexFormat::Float32x4),
            (1, VertexFormat::Float32x2),
            (2, VertexFormat::Uint32x4),
            (0, VertexFormat::Float32x2),
        ]),
        vec![
            attribute(3, 0, VertexFormat::Float32x4),
            attribute(1, 16, VertexFormat::Float32x2),
            attribute(2, 24, VertexFormat::Uint32x4),
            attribute(0, 40, VertexFormat::Float32x2),
        ],
    );
}

#[test]
fn solid_pipeline() {
    let solid::Pipeline { pipeline, constants_layout } =
        solid::Pipeline::new(FORMAT, Some(MSAA::X2));

    assert_eq!(
        constants_layout,
        BindGroupLayout {
            label: "iced_wgpu.triangle.solid.bind_group_layout",
            entry: constants_entry(),
        },
    );
    assert_eq!(pipeline.label, "iced_wgpu::triangle::solid pipeline");
    assert_eq!(
        pipeline.layout,
        PipelineLayout {
            label: "iced_wgpu.triangle.solid.pipeline_layout",
            bind_group_layout: constants_layout,
        },
    );
    assert_eq!(
        pipeline.module,
        ShaderModule {
            label: "iced_wgpu.triangle.solid.shader",
            files: vec![ShaderFile::Triangle, ShaderFile::Solid],
        },
    );
    assert_eq!(pipeline.vertex_entry_point, "solid_vs_main");
    assert_eq!(pipeline.fragment_entry_point, "solid_fs_main");
    assert_eq!(pipeline.vertices.array_stride, 24);
    assert_eq!(pipeline.vertices.step_mode, VertexStepMode::Vertex);
    assert_eq!(
        pipeline.vertices.attributes,
        vec![attribute(0, 0, VertexFormat::Float32x2), attribute(1, 8, VertexFormat::Float32x4)],
    );
    assert_eq!(pipeline.target, fragment_target(FORMAT));
    assert_eq!(pipeline.primitive, primitive_state());
    assert_eq!(pipeline.depth_stencil, None);
    assert_eq!(pipeline.multisample, multisample_state(Some(MSAA::X2)));
    assert_eq!(pipeline.multiview, None);
}

#[test]
fn gradient_pipeline() {
    let gradient::Pipeline { pipeline, constants_layout } =
        gradient::Pipeline::new(FORMAT, None, true);

    assert_eq!(
        constants_layout,
        BindGroupLayout {
            label: "iced_wgpu.triangle.gradient.bind_group_layout",
            entry: constants_entry(),
        },
    );
    assert_eq!(pipeline.label, "iced_wgpu.triangle.gradient.pipeline");
    assert_eq!(
        pipeline.layout,
        PipelineLayout {
            label: "iced_wgpu.triangle.gradient.pipeline_layout",
            bind_group_layout: constants_layout,
        },
    );
    assert_eq!(
        pipeline.module,
        ShaderModule {
            label: "iced_wgpu.triangle.gradient.shader",
            files: vec![ShaderFile::Triangle, ShaderFile::Gradient, ShaderFile::Oklab],
        },
    );
    assert_eq!(pipeline.vertex_entry_point, "gradient_vs_main");
    assert_eq!(pipeline.fragment_entry_point, "gradient_fs_main");
    assert_eq!(pipeline.vertices.array_stride, 104);
    assert_eq!(pipeline.vertices.step_mode, VertexStepMode::Vertex);
    assert_eq!(
        pipeline.vertices.attributes,
        vec![
            attribute(0, 0, VertexFormat::Float32x2),
            attribute(1, 8, VertexFormat::Uint32x4),
            attribute(2, 24, VertexFormat::Uint32x4),
            attribute(3, 40, VertexFormat::Uint32x4),
            attribute(4, 56, VertexFormat::Uint32x4),
            attribute(5, 72, VertexFormat::Uint32x4),
            attribute(6, 88, VertexFormat::Float32x4),
        ],
    );
    assert_eq!(pipeline.target, fragment_target(FORMAT));
    assert_eq!(pipeline.primitive, primitive_state());
    assert_eq!(pipeline.depth_stencil, None);
    assert_eq!(pipeline.multisample, multisample_state(None));
    assert_eq!(pipeline.multiview, None);
}

#[test]
fn gradients_without_gamma_correction_are_linear() {
    let gradient = gradient::Pipeline::new(FORMAT, None, false);

    assert_eq!(
        gradient.pipeline.module.files,
        vec![ShaderFile::Triangle, ShaderFile::Gradient, ShaderFile::LinearRgb],
    );
}

#[test]
fn attributes_fill_the_vertex() {
    for vertices in [
        solid::Pipeline::new(FORMAT, None).pipeline.vertices,
        gradient::Pipeline::new(FORMAT, None, false).pipeline.vertices,
    ] {
        let last = vertices.attributes[vertices.attributes.len() - 1];

        assert_eq!(last.offset + 16, vertices.array_stride);
    }
}

#[test]
fn solid_layer() {
    let layout = solid::Pipeline::new(FORMAT, None).constants_layout;
    let layer = solid::Layer::new(&layout);
    let uniforms = BufferDescriptor {
        label: "iced_wgpu.triangle.solid.uniforms",
        size: 256,
        usage: UNIFORM_USAGE,
    };

    assert_eq!(
        layer.vertices.raw,
        BufferDescriptor {
            label: "iced_wgpu.triangle.solid.vertex_buffer",
            size: 24_000,
            usage: VERTEX_USAGE,
        },
    );
    assert_eq!(layer.uniforms.raw, uniforms);
    assert_eq!(
        layer.constants,
        BindGroup {
            label: "iced_wgpu.triangle.solid.bind_group",
            layout,
            binding: 0,
            buffer: uniforms,
            offset: 0,
            size: Some(256),
        },
    );
    assert_eq!(layer.constants, solid::Layer::bind_group(&uniforms, &layout));
}

#[test]
fn gradient_layer() {
    let layout = gradient::Pipeline::new(FORMAT, None, true).constants_layout;
    let layer = gradient::Layer::new(&layout);
    let uniforms = BufferDescriptor {
        label: "iced_wgpu.triangle.gradient.uniforms",
        size: 256,
        usage: UNIFORM_USAGE,
    };

    assert_eq!(
        layer.vertices.raw,
        BufferDescriptor {
            label: "iced_wgpu.triangle.gradient.vertex_buffer",
            size: 104_000,
            usage: VERTEX_USAGE,
        },
    );
    assert_eq!(layer.uniforms.raw, uniforms);
    assert_eq!(
        layer.constants,
        BindGroup {
            label: "iced_wgpu.triangle.gradient.bind_group",
            layout,
            binding: 0,
            buffer: uniforms,
            offset: 0,
            size: Some(256),
        },
    );
    assert_eq!(layer.constants, gradient::Layer::bind_group(&uniforms, &layout));
}

#[test]
fn buffers_grow_only_when_they_must() {
    let mut buffer = Buffer::new("buffer", 8, 10, VERTEX_USAGE);

    assert_eq!(buffer.raw.size, 80);
    assert!(!buffer.resize(10));
    assert!(!buffer.resize(0));
    assert_eq!(buffer.raw.size, 80);
    assert!(buffer.resize(11));
    assert_eq!(buffer.raw, BufferDescriptor { label: "buffer", size: 88, usage: VERTEX_USAGE });
    assert!(!buffer.resize(11));
}

#[test]
fn buffers_remember_where_writes_start() {
    let mut buffer = Buffer::new("buffer", 8, 10, VERTEX_USAGE);

    assert_eq!(buffer.write(0, 3), 24);
    assert_eq!(buffer.write(24, 0), 0);
    assert_eq!(buffer.write(24, 7), 56);
    assert_eq!(buffer.slice_from_index(0), 0);
    assert_eq!(buffer.slice_from_index(1), 24);
    assert_eq!(buffer.slice_from_index(2), 24);
    buffer.clear();
    assert_eq!(buffer.offsets, vec![]);
    assert_eq!(buffer.raw.size, 80);
    assert_eq!(buffer.write(8, 1), 8);
    assert_eq!(buffer.slice_from_index(0), 8);
}

#[test]
fn blits_know_their_strategy() {
    let blit = Blit::new(FORMAT, MSAA::X8);

    assert_eq!(blit.strategy(), MSAA::X8);
    assert_eq!(blit.format, FORMAT);
}

#[test]
fn shader_files_are_joined_by_line_breaks() {
    let sources = Sources {
        triangle: String::from("a"),
        solid: String::from("b\n"),
        gradient: String::from("c"),
        oklab: String::from("d"),
        linear_rgb: String::from("e"),
    };
    let text = |files: Vec<ShaderFile>| ShaderModule { label: "module", files }.source(&sources);

    assert_eq!(text(vec![]), "");
    assert_eq!(text(vec![ShaderFile::Oklab]), "d");
    assert_eq!(solid::Pipeline::new(FORMAT, None).pipeline.module.source(&sources), "a\nb\n");
    assert_eq!(
        gradient::Pipeline::new(FORMAT, None, true).pipeline.module.source(&sources),
        "a\nc\nd",
    );
    assert_eq!(
        gradient::Pipeline::new(FORMAT, None, false).pipeline.module.source(&sources),
        "a\nc\ne",
    );
}
