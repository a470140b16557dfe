//! What the resources on the device look like.
//!
//! Each type says as a plain value what a call to the device has to create. A
//! resource is known by that value: where one refers to another, such as a bind
//! group to a buffer, it holds the other's description.
use crate::antialiasing::MSAA;
use vstd::prelude::*;

verus! {

/// Declares `wgpu::TextureFormat`, which is carried through unread.
#[verifier::external_type_specification]
#[verifier::external_body]
pub struct ExTextureFormat(wgpu::TextureFormat);

/// What a buffer may be used for.
#[derive(Clone, Copy, Debug, PartialEq, Eq, Structural)]
pub struct BufferUsages {
    /// As the index buffer of a draw.
    pub index: bool,
    /// As a vertex buffer of a draw.
    pub vertex: bool,
    /// As a uniform buffer of a bind group.
    pub uniform: bool,
    /// As the destination of a copy.
    pub copy_dst: bool,
}

/// A buffer on the device. It is not mapped when it is created.
#[derive(Clone, Copy, Debug, PartialEq, Eq)]
pub struct BufferDescriptor {
    /// Its debug label.
    pub label: &'static str,
    /// Its size in bytes.
    pub size: u64,
    /// Its allowed usages.
    pub usage: BufferUsages,
}

/// The stages of a pipeline that can see a binding.
#[derive(Clone, Copy, Debug, PartialEq, Eq, Structural)]
pub struct ShaderStages {
    /// The vertex stage.
    pub vertex: bool,
    /// The fragment stage.
    pub fragment: bool,
    /// The compute stage.
    pub compute: bool,
}

/// A uniform buffer as an entry of a bind group layout.
#[derive(Clone, Copy, Debug, PartialEq, Eq, Structural)]
pub struct BindGroupLayoutEntry {
    /// The number of the binding.
    pub binding: u32,
    /// The stages that see it.
    pub visibility: ShaderStages,
    /// The offset into the buffer is given when the bind group is set.
    pub has_dynamic_offset: bool,
    /// The least number of bytes that must be bound.
    pub min_binding_size: Option<u64>,
    /// The number of elements, for a binding array.
    pub count: Option<u32>,
}

/// A bind group layout with one entry.
#[derive(Clone, Copy, Debug, PartialEq, Eq)]
pub struct BindGroupLayout {
    /// Its debug label.
    pub label: &'static str,
    /// Its entry.
    pub entry: BindGroupLayoutEntry,
}

/// A bind group with one buffer.
#[derive(Clone, Copy, Debug, PartialEq, Eq)]
pub struct BindGroup {
    /// Its debug label.
    pub label: &'static str,
    /// Its layout.
    pub layout: BindGroupLayout,
    /// The number of the binding.
    pub binding: u32,
    /// The buffer that is bound.
    pub buffer: BufferDescriptor,
    /// Where in the buffer the binding starts, in bytes.
    pub offset: u64,
    /// How many bytes are bound.
    pub size: Option<u64>,
}

/// A pipeline layout with one bind group layout and no push constants.
#[derive(Clone, Copy, Debug, PartialEq, Eq)]
pub struct PipelineLayout {
    /// Its debug label.
    pub label: &'static str,
    /// The layout of its bind group.
    pub bind_group_layout: BindGroupLayout,
}

/// The format of a vertex attribute.
#[derive(Clone, Copy, Debug, PartialEq, Eq, Structural)]
pub enum VertexFormat {
    /// Two single-precision numbers.
    Float32x2,
    /// Four single-precision numbers.
    Float32x4,
    /// Four unsigned integers of 32 bits.
    Uint32x4,
}

/// An attribute of a vertex.
#[derive(Clone, Copy, Debug, PartialEq, Eq, Structural)]
pub struct VertexAttribute {
    /// Its format.
    pub format: VertexFormat,
    /// Where in the vertex it starts, in bytes.
    pub offset: u64,
    /// Its number in the shader.
    pub shader_location: u32,
}

/// Whether to step through a vertex buffer per vertex or per instance.
#[derive(Clone, Copy, Debug, PartialEq, Eq, Structural)]
pub enum VertexStepMode {
    /// Step per vertex.
    Vertex,
    /// Step per instance.
    Instance,
}

/// How the vertices lie in their buffer.
#[derive(Debug, PartialEq, Eq)]
pub struct VertexBufferLayout {
    /// The number of bytes from one vertex to the next.
    pub array_stride: u64,
    /// When to go to the next vertex.
    pub step_mode: VertexStepMode,
    /// The attributes of a vertex.
    pub attributes: Vec<VertexAttribute>,
}

/// A file of shader code.
#[derive(Clone, Copy, Debug, PartialEq, Eq, Structural)]
pub enum ShaderFile {
    /// `triangle.wgsl`, shared by both pipelines.
    Triangle,
    /// `triangle/solid.wgsl`.
    Solid,
    /// `triangle/gradient.wgsl`.
    Gradient,
    /// `color/oklab.wgsl`.
    Oklab,
    /// `color/linear_rgb.wgsl`.
    LinearRgb,
}

/// A shader module: some files, one after another, with a line break between them.
#[derive(Debug, PartialEq, Eq)]
pub struct ShaderModule {
    /// Its debug label.
    pub label: &'static str,
    /// The files it is made of.
    pub files: Vec<ShaderFile>,
}

/// How a colour is blended with what is there.
#[derive(Clone, Copy, Debug, PartialEq, Eq, Structural)]
pub enum BlendState {
    /// The new colour replaces the old one.
    Replace,
    /// Standard alpha blending with non-premultiplied alpha.
    AlphaBlending,
    /// Standard alpha blending with premultiplied alpha.
    PremultipliedAlphaBlending,
}

/// The colour channels that are written.
#[derive(Clone, Copy, Debug, PartialEq, Eq, Structural)]
pub struct ColorWrites {
    /// The red channel.
    pub red: bool,
    /// The green channel.
    pub green: bool,
    /// The blue channel.
    pub blue: bool,
    /// The alpha channel.
    pub alpha: bool,
}

/// What a pipeline writes to.
#[derive(Clone, Copy, Debug, PartialEq, Eq)]
pub struct ColorTargetState {
    /// The format of the texture.
    pub format: wgpu::TextureFormat,
    /// How colours are blended.
    pub blend: Option<BlendState>,
    /// The channels that are written.
    pub write_mask: ColorWrites,
}

/// How vertices form primitives.
#[derive(Clone, Copy, Debug, PartialEq, Eq, Structural)]
pub enum PrimitiveTopology {
    /// Every vertex is a point.
    PointList,
    /// Every two vertices are a line.
    LineList,
    /// Every vertex but the first is the end of a line from the one before.
    LineStrip,
    /// Every three vertices are a triangle.
    TriangleList,
    /// Every vertex but the first two is a triangle with the two before.
    TriangleStrip,
}

/// The width of an index.
#[derive(Clone, Copy, Debug, PartialEq, Eq, Structural)]
pub enum IndexFormat {
    /// Sixteen bits.
    Uint16,
    /// Thirty-two bits.
    Uint32,
}

/// The order of the vertices on the front of a triangle.
#[derive(Clone, Copy, Debug, PartialEq, Eq, Structural)]
pub enum FrontFace {
    /// Counter-clockwise.
    Ccw,
    /// Clockwise.
    Cw,
}

/// A side of a triangle.
#[derive(Clone, Copy, Debug, PartialEq, Eq, Structural)]
pub enum Face {
    /// The front.
    Front,
    /// The back.
    Back,
}

/// What of a polygon is drawn.
#[derive(Clone, Copy, Debug, PartialEq, Eq, Structural)]
pub enum PolygonMode {
    /// Its inside.
    Fill,
    /// Its edges.
    Line,
    /// Its corners.
    Point,
}

/// How primitives are assembled and rasterised.
#[derive(Clone, Copy, Debug, PartialEq, Eq, Structural)]
pub struct PrimitiveState {
    /// How vertices form primitives.
    pub topology: PrimitiveTopology,
    /// The width of an index, for strips.
    pub strip_index_format: Option<IndexFormat>,
    /// Which side of a triangle is the front.
    pub front_face: FrontFace,
    /// The side that is not drawn.
    pub cull_mode: Option<Face>,
    /// The depth is not clipped.
    pub unclipped_depth: bool,
    /// What of a polygon is drawn.
    pub polygon_mode: PolygonMode,
    /// Every pixel that is touched is filled.
    pub conservative: bool,
}

/// How a pipeline samples.
#[derive(Clone, Copy, Debug, PartialEq, Eq, Structural)]
pub struct MultisampleState {
    /// The number of samples per pixel.
    pub count: u32,
    /// The samples that may be written.
    pub mask: u64,
    /// The alpha value restricts the samples further.
    pub alpha_to_coverage_enabled: bool,
}

/// A render pipeline. Both of its stages come from one shader module, its vertices
/// from one buffer, and it writes to one colour target.
#[derive(Debug, PartialEq, Eq)]
pub struct RenderPipeline {
    /// Its debug label.
    pub label: &'static str,
    /// Its layout.
    pub layout: PipelineLayout,
    /// Its shader module.
    pub module: ShaderModule,
    /// The entry point of the vertex stage.
    pub vertex_entry_point: &'static str,
    /// The layout of the vertex buffer.
    pub vertices: VertexBufferLayout,
    /// The entry point of the fragment stage.
    pub fragment_entry_point: &'static str,
    /// The colour target.
    pub target: ColorTargetState,
    /// How primitives are assembled and rasterised.
    pub primitive: PrimitiveState,
    /// The format of the depth and stencil texture, if there is one.
    pub depth_stencil: Option<wgpu::TextureFormat>,
    /// How it samples.
    pub multisample: MultisampleState,
    /// The number of array layers drawn at once, if there are several.
    pub multiview: Option<u32>,
}

/// The number of bytes of an attribute.
pub open spec fn format_size(format: VertexFormat) -> u64 {
    match format {
        VertexFormat::Float32x2 => 8,
        VertexFormat::Float32x4 => 16,
        VertexFormat::Uint32x4 => 16,
    }
}

/// The number of bytes of the first `n` attributes.
pub open spec fn attributes_size(formats: Seq<(u32, VertexFormat)>, n: int) -> nat
    decreases n,
{
    if n <= 0 {
        0
    } else {
        attributes_size(formats, n - 1) + format_size(formats[n - 1].1) as nat
    }
}

/// The attributes with the given locations and formats, one right behind another.
pub open spec fn packed(formats: Seq<(u32, VertexFormat)>) -> Seq<VertexAttribute> {
    Seq::new(
        formats.len(),
        |i: int|
            VertexAttribute {
                format: formats[i].1,
                offset: attributes_size(formats, i) as u64,
                shader_location: formats[i].0,
            },
    )
}

/// Calls `wgpu::VertexFormat::size`.
///
/// It is believed to return 8 for two single-precision numbers, and 16 for four of
/// them and for four unsigned integers of 32 bits.
#[verifier::external_body]
fn vertex_format_size(format: VertexFormat) -> (size: u64)
    ensures
        size == format_size(format),
{
    match format {
        VertexFormat::Float32x2 => wgpu::VertexFormat::Float32x2.size(),
        VertexFormat::Float32x4 => wgpu::VertexFormat::Float32x4.size(),
        VertexFormat::Uint32x4 => wgpu::VertexFormat::Uint32x4.size(),
    }
}

/// Fewer attributes take no more bytes.
pub proof fn lemma_attributes_size_monotonic(formats: Seq<(u32, VertexFormat)>, m: int, n: int)
    requires
        m <= n,
    ensures
        attributes_size(formats, m) <= attributes_size(formats, n),
    decreases n - m,
{
    if m < n {
        lemma_attributes_size_monotonic(formats, m, n - 1);
    }
}

/// Lays out attributes with the given locations and formats, one right behind
/// another.
pub fn vertex_attributes(formats: &[(u32, VertexFormat)]) -> (attributes: Vec<VertexAttribute>)
    requires
        attributes_size(formats@, formats@.len() as int) <= u64::MAX,
    ensures
        attributes@ == packed(formats@),
{
    let mut attributes: Vec<VertexAttribute> = Vec::new();
    let mut offset: u64 = 0;
    let mut i: usize = 0;

    while i < formats.len()
        invariant
            i <= formats@.len(),
            attributes_size(formats@, formats@.len() as int) <= u64::MAX,
            offset == attributes_size(formats@, i as int),
            attributes@ == packed(formats@).take(i as int),
        decreases formats@.len() - i,
    {
        let (shader_location, format) = formats[i];
        attributes.push(VertexAttribute { format, offset, shader_location });

        proof {
            lemma_attributes_size_monotonic(formats@, i + 1, formats@.len() as int);
            assert(packed(formats@).take(i + 1) =~= packed(formats@).take(i as int).push(
                packed(formats@)[i as int],
            ));
        }

        offset = offset + vertex_format_size(format);
        i = i + 1;
    }

    proof {
        assert(packed(formats@).take(formats@.len() as int) =~= packed(formats@));
    }

    attributes
}

/// All channels of a texture of the given format, blended by alpha.
pub open spec fn blended_target(format: wgpu::TextureFormat) -> ColorTargetState {
    ColorTargetState {
        format,
        blend: Some(BlendState::AlphaBlending),
        write_mask: ColorWrites { red: true, green: true, blue: true, alpha: true },
    }
}

/// Returns what both pipelines write to.
pub fn fragment_target(texture_format: wgpu::TextureFormat) -> (target: ColorTargetState)
    ensures
        target == blended_target(texture_format),
{
    ColorTargetState {
        format: texture_format,
        blend: Some(BlendState::AlphaBlending),
        write_mask: ColorWrites { red: true, green: true, blue: true, alpha: true },
    }
}

/// Lists of filled triangles whose front is clockwise and whose back is drawn too.
pub open spec fn clockwise_triangles() -> PrimitiveState {
    PrimitiveState {
        topology: PrimitiveTopology::TriangleList,
        strip_index_format: None,
        front_face: FrontFace::Cw,
        cull_mode: None,
        unclipped_depth: false,
        polygon_mode: PolygonMode::Fill,
        conservative: false,
    }
}

/// Returns how both pipelines assemble and rasterise primitives.
pub fn primitive_state() -> (primitive: PrimitiveState)
    ensures
        primitive == clockwise_triangles(),
{
    PrimitiveState {
        topology: PrimitiveTopology::TriangleList,
        strip_index_format: None,
        front_face: FrontFace::Cw,
        cull_mode: None,
        unclipped_depth: false,
        polygon_mode: PolygonMode::Fill,
        conservative: false,
    }
}

/// The number of samples per pixel: one without multisampling.
pub open spec fn samples_of(msaa: Option<MSAA>) -> u32 {
    match msaa {
        None => 1,
        Some(msaa) => msaa.samples(),
    }
}

/// Every sample of a pixel is written, whatever the alpha value.
pub open spec fn sampling(msaa: Option<MSAA>) -> MultisampleState {
    MultisampleState {
        count: samples_of(msaa),
        mask: u64::MAX,
        alpha_to_coverage_enabled: false,
    }
}

/// Returns how a pipeline samples under the given strategy.
pub fn multisample_state(msaa: Option<MSAA>) -> (multisample: MultisampleState)
    ensures
        multisample == sampling(msaa),
{
    let count: u32 = match msaa {
        None => 1,
        Some(msaa) => msaa.sample_count(),
    };

    MultisampleState { count, mask: u64::MAX, alpha_to_coverage_enabled: false }
}

} // verus!
