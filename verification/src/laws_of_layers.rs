//! What preparing and rendering a layer comes to, for each mesh.
use crate::buffer::BufferModel;
use crate::command::{Contents, Draw, Slot, Upload};
use crate::mesh::{Indexed, Kind, Mesh, Rectangle};
use crate::plan::LayerModel;
use crate::resource::{BindGroup, BindGroupLayout, BufferDescriptor, BufferUsages, IndexFormat};
use crate::{buffer, gradient, laws, layer, mesh, plan, solid};
use vstd::prelude::*;

verus! {

/// The family of a mesh, by its variant.
pub open spec fn kind_of(mesh: Mesh) -> Kind {
    match mesh {
        Mesh::Solid { .. } => Kind::Solid,
        Mesh::Gradient { .. } => Kind::Gradient,
    }
}

/// The amount of data of a mesh.
pub open spec fn data_of(mesh: Mesh) -> Indexed {
    match mesh {
        Mesh::Solid { buffers, .. } => buffers,
        Mesh::Gradient { buffers, .. } => buffers,
    }
}

/// The words of the transformation of a mesh.
pub open spec fn words_of(mesh: Mesh) -> [u32; 16] {
    match mesh {
        Mesh::Solid { transformation, .. } => transformation.bits,
        Mesh::Gradient { transformation, .. } => transformation.bits,
    }
}

/// The clip bounds of a mesh.
pub open spec fn bounds_of(mesh: Mesh) -> Rectangle {
    match mesh {
        Mesh::Solid { clip_bounds, .. } => clip_bounds,
        Mesh::Gradient { clip_bounds, .. } => clip_bounds,
    }
}

/// The clip bounds are at least one pixel wide and one pixel high.
pub open spec fn on_screen(mesh: Mesh) -> bool {
    bounds_of(mesh).width >= 1 && bounds_of(mesh).height >= 1
}

/// The meshes of one kind.
pub open spec fn of_kind(meshes: Seq<Mesh>, kind: Kind) -> Seq<Mesh> {
    meshes.filter(|mesh: Mesh| kind_of(mesh) == kind)
}

/// The meshes that are on screen.
pub open spec fn drawable(meshes: Seq<Mesh>) -> Seq<Mesh> {
    meshes.filter(|mesh: Mesh| on_screen(mesh))
}

/// The number of indices of all meshes.
pub open spec fn total_indices(meshes: Seq<Mesh>) -> nat {
    meshes.fold_left(0nat, |sum: nat, mesh: Mesh| sum + data_of(mesh).indices as nat)
}

/// The number of vertices of all meshes.
pub open spec fn total_vertices(meshes: Seq<Mesh>) -> nat {
    meshes.fold_left(0nat, |sum: nat, mesh: Mesh| sum + data_of(mesh).vertices as nat)
}

/// The number of bytes of a vertex.
pub open spec fn vertex_bytes(kind: Kind) -> nat {
    match kind {
        Kind::Solid => 24,
        Kind::Gradient => 104,
    }
}

/// The lower 32 bits of a number.
pub open spec fn lower_bits(x: nat) -> nat {
    x % 0x1_0000_0000
}

/// A mesh tells what its fields hold.
pub proof fn meshes_tell_their_fields(mesh: Mesh)
    ensures
        mesh.kind() == kind_of(mesh),
        mesh.buffers() == data_of(mesh),
        mesh.transformation().bits == words_of(mesh),
        mesh.clip_bounds() == bounds_of(mesh),
        mesh.visible() <==> bounds_of(mesh).width >= 1 && bounds_of(mesh).height >= 1,
{
}

/// How one more mesh changes what is picked and added up.
proof fn lemma_one_more(meshes: Seq<Mesh>, mesh: Mesh, kind: Kind)
    ensures
        of_kind(meshes.push(mesh), kind) == if kind_of(mesh) == kind {
            of_kind(meshes, kind).push(mesh)
        } else {
            of_kind(meshes, kind)
        },
        drawable(meshes.push(mesh)) == if on_screen(mesh) {
            drawable(meshes).push(mesh)
        } else {
            drawable(meshes)
        },
        total_indices(meshes.push(mesh)) == total_indices(meshes) + data_of(mesh).indices,
        total_vertices(meshes.push(mesh)) == total_vertices(meshes) + data_of(mesh).vertices,
{
    reveal(Seq::filter);
    assert(meshes.push(mesh).drop_last() =~= meshes);
}

/// What comes before a mesh is counted by adding up: the indices, the vertices of a kind,
/// the meshes of a kind, those of them that are on screen, and which kind was on screen
/// last.
pub proof fn meshes_are_counted_by_adding_up(meshes: Seq<Mesh>, kind: Kind, n: int)
    requires
        0 <= n <= meshes.len(),
    ensures
        mesh::indices_before(meshes, n) == total_indices(meshes.take(n)),
        mesh::vertices_before(meshes, kind, n) == total_vertices(of_kind(meshes.take(n), kind)),
        mesh::rank(meshes, kind, n) == of_kind(meshes.take(n), kind).len(),
        mesh::visible_rank(meshes, kind, n) == of_kind(drawable(meshes.take(n)), kind).len(),
        mesh::last_visible(meshes, n) == if drawable(meshes.take(n)).len() == 0 {
            None
        } else {
            Some(kind_of(drawable(meshes.take(n)).last()))
        },
    decreases n,
{
    if n == 0 {
        reveal(Seq::filter);
        assert(meshes.take(0) =~= Seq::empty());
    } else {
        let before = meshes.take(n - 1);
        let last = meshes[n - 1];
        meshes_are_counted_by_adding_up(meshes, kind, n - 1);
        assert(meshes.take(n) =~= before.push(last));
        lemma_one_more(before, last, kind);
        lemma_one_more(of_kind(before, kind), last, kind);
        lemma_one_more(drawable(before), last, kind);
    }
}

/// The meshes of both kinds can be addressed if and only if the bytes of their indices, of
/// the vertices of each kind and of the constants of each kind can be counted by a machine
/// integer.
pub proof fn addressable_in_numbers(meshes: Seq<Mesh>)
    ensures
        plan::addressable(meshes) <==> {
            &&& 4 * total_indices(meshes) <= usize::MAX
            &&& 24 * total_vertices(of_kind(meshes, Kind::Solid)) <= usize::MAX
            &&& 104 * total_vertices(of_kind(meshes, Kind::Gradient)) <= usize::MAX
            &&& 256 * of_kind(meshes, Kind::Solid).len() <= usize::MAX
            &&& 256 * of_kind(meshes, Kind::Gradient).len() <= usize::MAX
        },
        mesh::countable(meshes) <==> {
            &&& total_indices(meshes) <= usize::MAX
            &&& total_vertices(of_kind(meshes, Kind::Solid)) <= usize::MAX
            &&& total_vertices(of_kind(meshes, Kind::Gradient)) <= usize::MAX
        },
{
    lemma_totals(meshes, Kind::Solid);
    lemma_totals(meshes, Kind::Gradient);
}

/// What all meshes need.
proof fn lemma_totals(meshes: Seq<Mesh>, kind: Kind)
    ensures
        mesh::indices_before(meshes, meshes.len() as int) == total_indices(meshes),
        mesh::vertices_before(meshes, kind, meshes.len() as int) == total_vertices(
            of_kind(meshes, kind),
        ),
        mesh::rank(meshes, kind, meshes.len() as int) == of_kind(meshes, kind).len(),
        plan::vertex_offset(meshes, kind, meshes.len() as int) == vertex_bytes(kind)
            * total_vertices(of_kind(meshes, kind)),
{
    meshes_are_counted_by_adding_up(meshes, kind, meshes.len() as int);
    assert(meshes.take(meshes.len() as int) =~= meshes);
}

/// Every mesh has three writes among those of all meshes, in order.
proof fn lemma_writes_at(meshes: Seq<Mesh>, i: int, n: int)
    requires
        0 <= i < n,
    ensures
        plan::writes(meshes, n).len() == 3 * n,
        plan::writes(meshes, n)[3 * i] == plan::mesh_writes(meshes, i)[0],
        plan::writes(meshes, n)[3 * i + 1] == plan::mesh_writes(meshes, i)[1],
        plan::writes(meshes, n)[3 * i + 2] == plan::mesh_writes(meshes, i)[2],
    decreases n,
{
    lemma_writes_len(meshes, n - 1);
    if i < n - 1 {
        lemma_writes_at(meshes, i, n - 1);
    }
}

/// There are three writes for each mesh.
proof fn lemma_writes_len(meshes: Seq<Mesh>, n: int)
    requires
        0 <= n,
    ensures
        plan::writes(meshes, n).len() == 3 * n,
    decreases n,
{
    if 0 < n {
        lemma_writes_len(meshes, n - 1);
    }
}

/// Where the data of a mesh goes is what the meshes before it take.
proof fn lemma_offsets_in_numbers(meshes: Seq<Mesh>, i: int)
    requires
        0 <= i < meshes.len(),
        plan::addressable(meshes),
    ensures
        ({
            let kind = kind_of(meshes[i]);
            let before = meshes.take(i);
            &&& i <= usize::MAX
            &&& plan::index_offset(meshes, i) == 4 * total_indices(before) <= usize::MAX
            &&& plan::vertex_offset(meshes, kind, i) == vertex_bytes(kind) * total_vertices(
                of_kind(before, kind),
            ) <= usize::MAX
            &&& plan::uniform_offset(meshes, kind, i) == 256 * of_kind(before, kind).len()
                <= usize::MAX
        }),
{
    let kind = kind_of(meshes[i]);
    meshes_are_counted_by_adding_up(meshes, kind, i);
    plan::lemma_offsets(meshes, kind, i);
    laws::lemma_ranks_add_up(meshes, meshes.len() as int);
}

/// The steps that prepare a layer end in three writes for each mesh, in the order of the
/// meshes, and hold no other write.
pub proof fn there_are_three_writes_per_mesh(
    layer: LayerModel,
    meshes: Seq<Mesh>,
    solid: BindGroupLayout,
    gradient: BindGroupLayout,
)
    ensures
        ({
            let uploads = layer.uploads(meshes, solid, gradient);
            let first = uploads.len() - 3 * meshes.len();
            &&& 0 <= first
            &&& forall|k: int| 0 <= k < first ==> !(#[trigger] uploads[k] is Write)
            &&& forall|k: int| first <= k < uploads.len() ==> #[trigger] uploads[k] is Write
        }),
{
    reveal(LayerModel::uploads);
    let n = meshes.len() as int;
    let growths = layer.growths(meshes, solid, gradient);
    let writes = plan::writes(meshes, n);
    let uploads = layer.uploads(meshes, solid, gradient);
    lemma_writes_len(meshes, n);
    assert forall|k: int| growths.len() <= k < uploads.len() implies #[trigger] uploads[k] is Write by {
        let place = k - growths.len();
        let i = place / 3;
        lemma_writes_at(meshes, i, n);
        assert(uploads[k] == writes[place]);
        assert(place == 3 * i || place == 3 * i + 1 || place == 3 * i + 2);
    }
}

/// The three writes of a mesh: its own indices, behind those of all meshes before it; its
/// own vertices, behind those of the meshes of its kind before it; and 256 bytes, made of
/// the words of its own transformation and zeros, at 256 times the number of meshes of its
/// kind before it.
pub proof fn meshes_are_written_with_their_own_data(
    layer: LayerModel,
    meshes: Seq<Mesh>,
    solid: BindGroupLayout,
    gradient: BindGroupLayout,
    i: int,
)
    requires
        plan::addressable(meshes),
        0 <= i < meshes.len(),
    ensures
        ({
            let uploads = layer.uploads(meshes, solid, gradient);
            let first = uploads.len() - 3 * meshes.len();
            let kind = kind_of(meshes[i]);
            let before = meshes.take(i);
            &&& uploads[first + 3 * i] matches Upload::Write { slot, offset, contents } && {
                &&& slot == Slot::Indices
                &&& offset == 4 * total_indices(before)
                &&& contents matches Contents::Indices(number) && number == i
            }
            &&& uploads[first + 3 * i + 1] matches Upload::Write { slot, offset, contents } && {
                &&& slot == Slot::Vertices(kind)
                &&& offset == vertex_bytes(kind) * total_vertices(of_kind(before, kind))
                &&& contents matches Contents::Vertices(number) && number == i
            }
            &&& uploads[first + 3 * i + 2] matches Upload::Write { slot, offset, contents } && {
                &&& slot == Slot::Uniforms(kind)
                &&& offset == 256 * of_kind(before, kind).len()
                &&& contents matches Contents::Uniforms(uniforms) && {
                    &&& uniforms.transform == words_of(meshes[i])
                    &&& forall|k: int| 0 <= k < 48 ==> #[trigger] uniforms.padding@[k] == 0
                }
            }
        }),
{
    reveal(LayerModel::uploads);
    let n = meshes.len() as int;
    let growths = layer.growths(meshes, solid, gradient);
    let writes = plan::writes(meshes, n);
    let uploads = layer.uploads(meshes, solid, gradient);
    lemma_writes_at(meshes, i, n);
    lemma_offsets_in_numbers(meshes, i);
    let first = growths.len() as int;
    assert(uploads.len() == first + 3 * n);
    assert(uploads[first + 3 * i] == writes[3 * i]);
    assert(uploads[first + 3 * i + 1] == writes[3 * i + 1]);
    assert(uploads[first + 3 * i + 2] == writes[3 * i + 2]);
}

/// A prepared layer remembers, for each mesh, where its data was written and the lower 32
/// bits of its number of indices.
pub proof fn prepared_layers_remember_where_data_is(
    layer: LayerModel,
    meshes: Seq<Mesh>,
    solid: BindGroupLayout,
    gradient: BindGroupLayout,
    i: int,
)
    requires
        plan::addressable(meshes),
        0 <= i < meshes.len(),
    ensures
        ({
            let prepared = layer.prepared(meshes, solid, gradient);
            let before = meshes.take(i);
            let solids = of_kind(before, Kind::Solid);
            let gradients = of_kind(before, Kind::Gradient);
            &&& prepared.index_buffer.offsets[i] == 4 * total_indices(before)
            &&& prepared.index_strides[i] == lower_bits(data_of(meshes[i]).indices as nat)
            &&& meshes[i] is Solid ==> {
                &&& prepared.solid.vertices.offsets[solids.len() as int] == 24 * total_vertices(
                    solids,
                )
                &&& prepared.solid.uniforms.offsets[solids.len() as int] == 256 * solids.len()
            }
            &&& meshes[i] is Gradient ==> {
                &&& prepared.gradient.vertices.offsets[gradients.len() as int] == 104
                    * total_vertices(gradients)
                &&& prepared.gradient.uniforms.offsets[gradients.len() as int] == 256
                    * gradients.len()
            }
        }),
{
    reveal(LayerModel::prepared);
    let kind = kind_of(meshes[i]);
    lemma_offsets_in_numbers(meshes, i);
    meshes_are_counted_by_adding_up(meshes, kind, i);
    laws::lemma_vertex_offsets_at(meshes, i, meshes.len() as int);
}

/// A prepared layer remembers as many places as there are meshes, and as there are meshes
/// of each kind, and no more. The elements of its buffers keep their sizes.
pub proof fn prepared_layers_remember_every_mesh(
    layer: LayerModel,
    meshes: Seq<Mesh>,
    solid: BindGroupLayout,
    gradient: BindGroupLayout,
)
    ensures
        ({
            let prepared = layer.prepared(meshes, solid, gradient);
            &&& prepared.index_buffer.offsets.len() == meshes.len()
            &&& prepared.index_strides.len() == meshes.len()
            &&& prepared.solid.vertices.offsets.len() == of_kind(meshes, Kind::Solid).len()
            &&& prepared.solid.uniforms.offsets.len() == of_kind(meshes, Kind::Solid).len()
            &&& prepared.gradient.vertices.offsets.len() == of_kind(meshes, Kind::Gradient).len()
            &&& prepared.gradient.uniforms.offsets.len() == of_kind(meshes, Kind::Gradient).len()
            &&& prepared.index_buffer.stride == layer.index_buffer.stride
            &&& prepared.solid.vertices.stride == layer.solid.vertices.stride
            &&& prepared.solid.uniforms.stride == layer.solid.uniforms.stride
            &&& prepared.gradient.vertices.stride == layer.gradient.vertices.stride
            &&& prepared.gradient.uniforms.stride == layer.gradient.uniforms.stride
        }),
{
    reveal(LayerModel::prepared);
    let n = meshes.len() as int;
    lemma_totals(meshes, Kind::Solid);
    lemma_totals(meshes, Kind::Gradient);
    laws::lemma_vertex_offsets_len(meshes, Kind::Solid, n);
    laws::lemma_vertex_offsets_len(meshes, Kind::Gradient, n);
}

/// A buffer that has at least the given number of bytes: the same one if it has them, and
/// otherwise one of just that size, with the same label and usage.
pub open spec fn with_room(buffer: BufferDescriptor, bytes: nat) -> BufferDescriptor {
    if bytes <= buffer.size {
        buffer
    } else {
        BufferDescriptor { label: buffer.label, size: bytes as u64, usage: buffer.usage }
    }
}

/// The step that puts a larger buffer in a slot, if the one that is there is too small.
pub open spec fn replacement(slot: Slot, buffer: BufferDescriptor, bytes: nat) -> Seq<Upload> {
    if bytes <= buffer.size {
        Seq::empty()
    } else {
        seq![Upload::CreateBuffer { slot, buffer: with_room(buffer, bytes) }]
    }
}

/// The step that binds the constants anew, if their buffer is replaced.
pub open spec fn rebinding(
    kind: Kind,
    label: &'static str,
    buffer: BufferDescriptor,
    bytes: nat,
    layout: BindGroupLayout,
) -> Seq<Upload> {
    if bytes <= buffer.size {
        Seq::empty()
    } else {
        seq![
            Upload::CreateBindGroup {
                kind,
                group: BindGroup {
                    label,
                    layout,
                    binding: 0,
                    buffer: with_room(buffer, bytes),
                    offset: 0,
                    size: Some(256u64),
                },
            },
        ]
    }
}

/// A buffer has room for elements that take no more bytes than it has, and grows to just
/// what is needed.
pub proof fn buffers_grow_to_what_is_needed(buffer: BufferModel, count: nat)
    ensures
        buffer.holds(count) <==> buffer.stride * count <= buffer.raw.size,
        buffer.grown(count) == with_room(buffer.raw, buffer.stride * count),
{
}

/// What preparing a sound layer does to its buffers: each has at least the bytes that the
/// meshes need in it, and is replaced only if it had fewer. The bind group of a kind is
/// replaced if and only if the buffer with the constants of the kind is.
pub proof fn layers_grow_to_what_is_needed(
    layer: LayerModel,
    meshes: Seq<Mesh>,
    solid: BindGroupLayout,
    gradient: BindGroupLayout,
)
    requires
        layer.wf(),
    ensures
        ({
            let prepared = layer.prepared(meshes, solid, gradient);
            let solids = of_kind(meshes, Kind::Solid);
            let gradients = of_kind(meshes, Kind::Gradient);
            &&& prepared.index_buffer.raw == with_room(
                layer.index_buffer.raw,
                4 * total_indices(meshes),
            )
            &&& prepared.solid.vertices.raw == with_room(
                layer.solid.vertices.raw,
                24 * total_vertices(solids),
            )
            &&& prepared.solid.uniforms.raw == with_room(
                layer.solid.uniforms.raw,
                256 * solids.len(),
            )
            &&& prepared.solid.constants == if 256 * solids.len()
                <= layer.solid.uniforms.raw.size {
                layer.solid.constants
            } else {
                BindGroup {
                    label: "iced_wgpu.triangle.solid.bind_group",
                    layout: solid,
                    binding: 0,
                    buffer: prepared.solid.uniforms.raw,
                    offset: 0,
                    size: Some(256u64),
                }
            }
            &&& prepared.gradient.vertices.raw == with_room(
                layer.gradient.vertices.raw,
                104 * total_vertices(gradients),
            )
            &&& prepared.gradient.uniforms.raw == with_room(
                layer.gradient.uniforms.raw,
                256 * gradients.len(),
            )
            &&& prepared.gradient.constants == if 256 * gradients.len()
                <= layer.gradient.uniforms.raw.size {
                layer.gradient.constants
            } else {
                BindGroup {
                    label: "iced_wgpu.triangle.gradient.bind_group",
                    layout: gradient,
                    binding: 0,
                    buffer: prepared.gradient.uniforms.raw,
                    offset: 0,
                    size: Some(256u64),
                }
            }
        }),
{
    reveal(LayerModel::prepared);
    lemma_totals(meshes, Kind::Solid);
    lemma_totals(meshes, Kind::Gradient);
}

/// The steps before the writes: those that replace the buffers that are too small, first
/// that of the indices, then those of the vertices, then those of the constants, each of
/// the latter followed by its bind group.
pub proof fn only_small_buffers_are_replaced(
    layer: LayerModel,
    meshes: Seq<Mesh>,
    solid: BindGroupLayout,
    gradient: BindGroupLayout,
)
    requires
        layer.wf(),
    ensures
        ({
            let uploads = layer.uploads(meshes, solid, gradient);
            let solids = of_kind(meshes, Kind::Solid);
            let gradients = of_kind(meshes, Kind::Gradient);
            uploads.take(uploads.len() - 3 * meshes.len()) == replacement(
                Slot::Indices,
                layer.index_buffer.raw,
                4 * total_indices(meshes),
            ) + replacement(
                Slot::Vertices(Kind::Solid),
                layer.solid.vertices.raw,
                24 * total_vertices(solids),
            ) + replacement(
                Slot::Vertices(Kind::Gradient),
                layer.gradient.vertices.raw,
                104 * total_vertices(gradients),
            ) + (replacement(
                Slot::Uniforms(Kind::Solid),
                layer.solid.uniforms.raw,
                256 * solids.len(),
            ) + rebinding(
                Kind::Solid,
                "iced_wgpu.triangle.solid.bind_group",
                layer.solid.uniforms.raw,
                256 * solids.len(),
                solid,
            )) + (replacement(
                Slot::Uniforms(Kind::Gradient),
                layer.gradient.uniforms.raw,
                256 * gradients.len(),
            ) + rebinding(
                Kind::Gradient,
                "iced_wgpu.triangle.gradient.bind_group",
                layer.gradient.uniforms.raw,
                256 * gradients.len(),
                gradient,
            ))
        }),
{
    reveal(LayerModel::uploads);
    let n = meshes.len() as int;
    let solids = of_kind(meshes, Kind::Solid);
    let gradients = of_kind(meshes, Kind::Gradient);
    lemma_totals(meshes, Kind::Solid);
    lemma_totals(meshes, Kind::Gradient);
    lemma_writes_len(meshes, n);
    let uploads = layer.uploads(meshes, solid, gradient);
    let growths = layer.growths(meshes, solid, gradient);
    assert(uploads.take(uploads.len() - 3 * n) =~= growths);
    assert(plan::constants_growth(Kind::Solid, layer.solid.uniforms, solids.len(), solid)
        =~= replacement(
        Slot::Uniforms(Kind::Solid),
        layer.solid.uniforms.raw,
        256 * solids.len(),
    ) + rebinding(
        Kind::Solid,
        "iced_wgpu.triangle.solid.bind_group",
        layer.solid.uniforms.raw,
        256 * solids.len(),
        solid,
    ));
    assert(plan::constants_growth(
        Kind::Gradient,
        layer.gradient.uniforms,
        gradients.len(),
        gradient,
    ) =~= replacement(
        Slot::Uniforms(Kind::Gradient),
        layer.gradient.uniforms.raw,
        256 * gradients.len(),
    ) + rebinding(
        Kind::Gradient,
        "iced_wgpu.triangle.gradient.bind_group",
        layer.gradient.uniforms.raw,
        256 * gradients.len(),
        gradient,
    ));
}

/// What a sound layer is: its buffers hold elements of 4, 24, 104 and 256 bytes, it
/// remembers as many places of indices as numbers of them, and its bind groups bind 256
/// bytes of its uniform buffers.
pub proof fn sound_layers_in_full(layer: LayerModel)
    ensures
        layer.wf() <==> {
            &&& layer.index_buffer.stride == 4
            &&& layer.index_buffer.offsets.len() == layer.index_strides.len()
            &&& layer.solid.vertices.stride == 24
            &&& layer.solid.uniforms.stride == 256
            &&& layer.solid.constants == (BindGroup {
                label: "iced_wgpu.triangle.solid.bind_group",
                layout: layer.solid.constants.layout,
                binding: 0,
                buffer: layer.solid.uniforms.raw,
                offset: 0,
                size: Some(256u64),
            })
            &&& layer.gradient.vertices.stride == 104
            &&& layer.gradient.uniforms.stride == 256
            &&& layer.gradient.constants == (BindGroup {
                label: "iced_wgpu.triangle.gradient.bind_group",
                layout: layer.gradient.constants.layout,
                binding: 0,
                buffer: layer.gradient.uniforms.raw,
                offset: 0,
                size: Some(256u64),
            })
        },
{
}

/// What a layer starts with: room for a thousand indices, nothing written, and for each
/// kind what the kind starts with.
pub proof fn new_layers_in_full(solid: BindGroupLayout, gradient: BindGroupLayout)
    ensures
        ({
            let layer = plan::new_layer(solid, gradient);
            &&& layer.index_buffer.raw == (BufferDescriptor {
                label: "iced_wgpu.triangle.index_buffer",
                size: 4_000,
                usage: BufferUsages { index: true, vertex: false, uniform: false, copy_dst: true },
            })
            &&& layer.index_buffer.stride == 4
            &&& layer.index_buffer.offsets.len() == 0
            &&& layer.index_strides.len() == 0
            &&& layer.solid == solid::new_layer(solid)
            &&& layer.gradient == gradient::new_layer(gradient)
        }),
{
    reveal(plan::new_layer);
}

/// The steps that create a layer: its buffers and its bind groups, as they are, each bind
/// group after the buffer that it binds.
pub proof fn creations_in_full(layer: LayerModel)
    ensures
        layer.creations() == seq![
            Upload::CreateBuffer { slot: Slot::Indices, buffer: layer.index_buffer.raw },
            Upload::CreateBuffer {
                slot: Slot::Vertices(Kind::Solid),
                buffer: layer.solid.vertices.raw,
            },
            Upload::CreateBuffer {
                slot: Slot::Uniforms(Kind::Solid),
                buffer: layer.solid.uniforms.raw,
            },
            Upload::CreateBindGroup { kind: Kind::Solid, group: layer.solid.constants },
            Upload::CreateBuffer {
                slot: Slot::Vertices(Kind::Gradient),
                buffer: layer.gradient.vertices.raw,
            },
            Upload::CreateBuffer {
                slot: Slot::Uniforms(Kind::Gradient),
                buffer: layer.gradient.uniforms.raw,
            },
            Upload::CreateBindGroup { kind: Kind::Gradient, group: layer.gradient.constants },
        ],
{
    reveal(LayerModel::creations);
}

/// What is seen of a buffer, of the part of a layer for one kind, and of a layer is what
/// their fields hold.
pub proof fn layers_show_their_fields(
    buffer: buffer::Buffer,
    solid: solid::Layer,
    gradient: gradient::Layer,
    layer: layer::Layer,
)
    ensures
        buffer@.raw == buffer.raw,
        buffer@.stride == buffer.stride,
        buffer@.offsets == buffer.offsets@,
        solid@.vertices == solid.vertices@,
        solid@.uniforms == solid.uniforms@,
        solid@.constants == solid.constants,
        gradient@.vertices == gradient.vertices@,
        gradient@.uniforms == gradient.uniforms@,
        gradient@.constants == gradient.constants,
        layer@.index_buffer == layer.index_buffer@,
        layer@.index_strides == layer.index_strides@,
        layer@.solid == layer.solid@,
        layer@.gradient == layer.gradient@,
{
}

/// The meshes can be rendered from a layer if and only if, for each one that is on screen,
/// the layer remembers its indices, and as many places of vertices of its kind as it takes
/// to have one for it and for each one of its kind that is on screen before it.
pub proof fn renderable_in_numbers(layer: LayerModel, meshes: Seq<Mesh>)
    ensures
        layer.renderable(meshes) <==> forall|i: int|
            0 <= i < meshes.len() && on_screen(#[trigger] meshes[i]) ==> {
                let kind = kind_of(meshes[i]);
                let earlier = of_kind(drawable(meshes.take(i)), kind).len();
                &&& i < layer.index_strides.len()
                &&& i < layer.index_buffer.offsets.len()
                &&& kind == Kind::Solid ==> earlier < layer.solid.vertices.offsets.len()
                &&& kind == Kind::Gradient ==> earlier < layer.gradient.vertices.offsets.len()
            },
{
    assert forall|i: int| 0 <= i < meshes.len() implies mesh::visible_rank(
        meshes,
        (#[trigger] meshes[i]).kind(),
        i,
    ) == of_kind(drawable(meshes.take(i)), kind_of(meshes[i])).len() by {
        meshes_are_counted_by_adding_up(meshes, kind_of(meshes[i]), i);
    }
}

/// What draws some meshes does not depend on those that come after.
proof fn lemma_draws_of_prefix(layer: LayerModel, a: Seq<Mesh>, b: Seq<Mesh>, n: int)
    requires
        0 <= n <= a.len(),
        n <= b.len(),
        a.take(n) == b.take(n),
    ensures
        plan::draws(layer, a, n) == plan::draws(layer, b, n),
    decreases n,
{
    if 0 < n {
        assert(a.take(n - 1) =~= a.take(n).take(n - 1));
        assert(b.take(n - 1) =~= b.take(n).take(n - 1));
        lemma_draws_of_prefix(layer, a, b, n - 1);
        assert(a[n - 1] == a.take(n)[n - 1]);
        assert(b[n - 1] == b.take(n)[n - 1]);
        meshes_are_counted_by_adding_up(a, a[n - 1].kind(), n - 1);
        meshes_are_counted_by_adding_up(b, b[n - 1].kind(), n - 1);
    }
}

/// Without meshes nothing is drawn.
pub proof fn nothing_is_drawn_without_meshes(layer: LayerModel)
    ensures
        plan::draws(layer, Seq::empty(), 0).len() == 0,
{
}

/// One more mesh is drawn after the others. If its clip bounds have a width or a height of
/// zero, nothing is added. Otherwise its clip bounds become the scissor rectangle, wherever
/// they lie; the pipeline of its kind is set, unless the last mesh drawn was of its kind;
/// its constants, its vertices and its indices are bound; and its indices are drawn, once.
pub proof fn one_more_mesh_is_drawn_last(layer: LayerModel, meshes: Seq<Mesh>, mesh: Mesh)
    ensures
        ({
            let n = meshes.len() as int;
            let kind = kind_of(mesh);
            let bounds = bounds_of(mesh);
            let drawn = drawable(meshes);
            let number = of_kind(drawn, kind).len();
            plan::draws(layer, meshes.push(mesh), n + 1) == plan::draws(layer, meshes, n) + if {
                bounds.width == 0 || bounds.height == 0
            } {
                Seq::empty()
            } else {
                seq![Draw::SetScissorRect(bounds)] + (if drawn.len() > 0 && kind_of(drawn.last())
                    == kind {
                    Seq::empty()
                } else {
                    seq![Draw::SetPipeline(kind)]
                }) + seq![
                    Draw::SetBindGroup {
                        index: 0,
                        kind,
                        dynamic_offset: lower_bits(256 * number) as u32,
                    },
                    Draw::SetVertexBuffer {
                        index: 0,
                        slot: Slot::Vertices(kind),
                        offset: match kind {
                            Kind::Solid => layer.solid.vertices.offsets[number as int],
                            Kind::Gradient => layer.gradient.vertices.offsets[number as int],
                        },
                    },
                    Draw::SetIndexBuffer {
                        slot: Slot::Indices,
                        offset: layer.index_buffer.offsets[n],
                        format: IndexFormat::Uint32,
                    },
                    Draw::DrawIndexed {
                        first_index: 0,
                        end_index: layer.index_strides[n],
                        base_vertex: 0,
                        first_instance: 0,
                        end_instance: 1,
                    },
                ]
            }
        }),
{
    let n = meshes.len() as int;
    let all = meshes.push(mesh);
    assert(all.take(n) =~= meshes);
    assert(meshes.take(n) =~= meshes);
    lemma_draws_of_prefix(layer, all, meshes, n);
    meshes_are_counted_by_adding_up(all, kind_of(mesh), n);
    assert(all[n] == mesh);
    assert(plan::draws(layer, all, n + 1) == plan::draws(layer, all, n) + plan::mesh_draws(
        layer,
        all,
        n,
    ));
}

/// What is set up when something is drawn.
pub struct Setup {
    /// The scissor rectangle.
    pub scissor: Option<Rectangle>,
    /// The pipeline.
    pub pipeline: Option<Kind>,
    /// The number of the bind group, its kind, and where the constants start.
    pub constants: Option<(u32, Kind, u32)>,
    /// The number of the vertex buffer, its slot, and where the vertices start.
    pub vertices: Option<(u32, Slot, u64)>,
    /// The slot of the index buffer, where the indices start, and their width.
    pub indices: Option<(Slot, u64, IndexFormat)>,
}

/// What is set up after some commands.
pub open spec fn setup_after(commands: Seq<Draw>) -> Setup
    decreases commands.len(),
{
    if commands.len() == 0 {
        Setup { scissor: None, pipeline: None, constants: None, vertices: None, indices: None }
    } else {
        let setup = setup_after(commands.drop_last());
        match commands.last() {
            Draw::SetScissorRect(bounds) => Setup { scissor: Some(bounds), ..setup },
            Draw::SetPipeline(kind) => Setup { pipeline: Some(kind), ..setup },
            Draw::SetBindGroup { index, kind, dynamic_offset } => Setup {
                constants: Some((index, kind, dynamic_offset)),
                ..setup
            },
            Draw::SetVertexBuffer { index, slot, offset } => Setup {
                vertices: Some((index, slot, offset)),
                ..setup
            },
            Draw::SetIndexBuffer { slot, offset, format } => Setup {
                indices: Some((slot, offset, format)),
                ..setup
            },
            Draw::DrawIndexed { .. } => setup,
        }
    }
}

/// The draws among some commands, each with what is set up then.
pub open spec fn drawn(commands: Seq<Draw>) -> Seq<(Setup, Draw)>
    decreases commands.len(),
{
    if commands.len() == 0 {
        Seq::empty()
    } else if commands.last() is DrawIndexed {
        drawn(commands.drop_last()).push((setup_after(commands.drop_last()), commands.last()))
    } else {
        drawn(commands.drop_last())
    }
}

/// What one more command changes.
proof fn lemma_one_more_command(commands: Seq<Draw>, command: Draw)
    ensures
        setup_after(commands.push(command)) == {
            let setup = setup_after(commands);
            match command {
                Draw::SetScissorRect(bounds) => Setup { scissor: Some(bounds), ..setup },
                Draw::SetPipeline(kind) => Setup { pipeline: Some(kind), ..setup },
                Draw::SetBindGroup { index, kind, dynamic_offset } => Setup {
                    constants: Some((index, kind, dynamic_offset)),
                    ..setup
                },
                Draw::SetVertexBuffer { index, slot, offset } => Setup {
                    vertices: Some((index, slot, offset)),
                    ..setup
                },
                Draw::SetIndexBuffer { slot, offset, format } => Setup {
                    indices: Some((slot, offset, format)),
                    ..setup
                },
                Draw::DrawIndexed { .. } => setup,
            }
        },
        drawn(commands.push(command)) == if command is DrawIndexed {
            drawn(commands).push((setup_after(commands), command))
        } else {
            drawn(commands)
        },
{
    assert(commands.push(command).drop_last() =~= commands);
}

/// What a mesh is drawn with, if it is the next one to draw.
pub open spec fn drawing(layer: LayerModel, meshes: Seq<Mesh>, i: int) -> (Setup, Draw) {
    let kind = kind_of(meshes[i]);
    let number = of_kind(drawable(meshes.take(i)), kind).len();
    (
        Setup {
            scissor: Some(bounds_of(meshes[i])),
            pipeline: Some(kind),
            constants: Some((0u32, kind, lower_bits(256 * number) as u32)),
            vertices: Some(
                (
                    0u32,
                    Slot::Vertices(kind),
                    match kind {
                        Kind::Solid => layer.solid.vertices.offsets[number as int],
                        Kind::Gradient => layer.gradient.vertices.offsets[number as int],
                    },
                ),
            ),
            indices: Some((Slot::Indices, layer.index_buffer.offsets[i], IndexFormat::Uint32)),
        },
        Draw::DrawIndexed {
            first_index: 0,
            end_index: layer.index_strides[i],
            base_vertex: 0,
            first_instance: 0,
            end_instance: 1,
        },
    )
}

/// What the commands of one mesh change.
proof fn lemma_drawing(layer: LayerModel, meshes: Seq<Mesh>, i: int, before: Seq<Draw>)
    requires
        0 <= i < meshes.len(),
        setup_after(before).pipeline == mesh::last_visible(meshes, i),
    ensures
        ({
            let after = before + plan::mesh_draws(layer, meshes, i);
            &&& setup_after(after).pipeline == mesh::last_visible(meshes, i + 1)
            &&& drawn(after) == if on_screen(meshes[i]) {
                drawn(before).push(drawing(layer, meshes, i))
            } else {
                drawn(before)
            }
        }),
{
    let commands = plan::mesh_draws(layer, meshes, i);
    meshes_are_counted_by_adding_up(meshes, kind_of(meshes[i]), i);
    if on_screen(meshes[i]) {
        let n = commands.len() as int;
        let s0 = before.push(commands[0]);
        let s1 = if n == 5 {
            s0
        } else {
            s0.push(commands[1])
        };
        let s2 = s1.push(commands[n - 4]);
        let s3 = s2.push(commands[n - 3]);
        let s4 = s3.push(commands[n - 2]);
        let s5 = s4.push(commands[n - 1]);
        lemma_one_more_command(before, commands[0]);
        lemma_one_more_command(s0, commands[1]);
        lemma_one_more_command(s1, commands[n - 4]);
        lemma_one_more_command(s2, commands[n - 3]);
        lemma_one_more_command(s3, commands[n - 2]);
        lemma_one_more_command(s4, commands[n - 1]);
        assert(before + commands =~= s5);
    } else {
        assert(before + commands =~= before);
    }
}

/// What is drawn of the first `n` meshes.
proof fn lemma_drawn(layer: LayerModel, meshes: Seq<Mesh>, i: int, n: int)
    requires
        0 <= i <= n <= meshes.len(),
    ensures
        setup_after(plan::draws(layer, meshes, n)).pipeline == mesh::last_visible(meshes, n),
        drawn(plan::draws(layer, meshes, n)).len() == drawable(meshes.take(n)).len(),
        i < n && on_screen(meshes[i]) ==> {
            let number = drawable(meshes.take(i)).len();
            &&& number < drawn(plan::draws(layer, meshes, n)).len()
            &&& drawn(plan::draws(layer, meshes, n))[number as int] == drawing(layer, meshes, i)
        },
    decreases n,
{
    if n == 0 {
        reveal(Seq::filter);
        assert(meshes.take(0) =~= Seq::empty());
    } else {
        let last = meshes[n - 1];
        if i < n {
            lemma_drawn(layer, meshes, i, n - 1);
        } else {
            lemma_drawn(layer, meshes, i - 1, n - 1);
        }
        assert(meshes.take(n) =~= meshes.take(n - 1).push(last));
        lemma_one_more(meshes.take(n - 1), last, kind_of(last));
        lemma_drawing(layer, meshes, n - 1, plan::draws(layer, meshes, n - 1));
    }
}

/// The draws come in the order of the meshes on screen, each in its mesh's clip bounds and
/// by its pipeline.
proof fn lemma_drawn_in_order(layer: LayerModel, meshes: Seq<Mesh>, n: int)
    requires
        0 <= n <= meshes.len(),
    ensures
        ({
            let draws = drawn(plan::draws(layer, meshes, n));
            let shown = drawable(meshes.take(n));
            &&& draws.len() == shown.len()
            &&& forall|j: int|
                0 <= j < shown.len() ==> (#[trigger] draws[j]).0.scissor == Some(
                    bounds_of(shown[j]),
                ) && draws[j].0.pipeline == Some(kind_of(shown[j])) && on_screen(shown[j])
        }),
    decreases n,
{
    if n == 0 {
        reveal(Seq::filter);
        assert(meshes.take(0) =~= Seq::empty());
    } else {
        let last = meshes[n - 1];
        lemma_drawn_in_order(layer, meshes, n - 1);
        lemma_drawn(layer, meshes, n - 1, n - 1);
        assert(meshes.take(n) =~= meshes.take(n - 1).push(last));
        lemma_one_more(meshes.take(n - 1), last, kind_of(last));
        lemma_drawing(layer, meshes, n - 1, plan::draws(layer, meshes, n - 1));
    }
}

/// There is one draw for each mesh whose clip bounds have a width and a height of at least
/// one pixel, in the order of the meshes, with these clip bounds as the scissor rectangle
/// and by the pipeline of the mesh's kind. There is no other draw: none for a mesh whose
/// clip bounds have a width or a height of zero.
pub proof fn just_the_meshes_on_screen_are_drawn(layer: LayerModel, meshes: Seq<Mesh>)
    ensures
        ({
            let draws = drawn(plan::draws(layer, meshes, meshes.len() as int));
            let shown = meshes.filter(
                |mesh: Mesh| bounds_of(mesh).width >= 1 && bounds_of(mesh).height >= 1,
            );
            &&& draws.len() == shown.len()
            &&& forall|j: int|
                0 <= j < shown.len() ==> (#[trigger] draws[j]).0.scissor == Some(
                    bounds_of(shown[j]),
                ) && draws[j].0.pipeline == Some(kind_of(shown[j]))
            &&& forall|j: int|
                0 <= j < draws.len() ==> ((#[trigger] draws[j]).0.scissor matches Some(bounds)
                    && bounds.width >= 1 && bounds.height >= 1)
        }),
{
    let n = meshes.len() as int;
    lemma_drawn_in_order(layer, meshes, n);
    assert(meshes.take(n) =~= meshes);
    assert((|mesh: Mesh| bounds_of(mesh).width >= 1 && bounds_of(mesh).height >= 1) =~= (
    |mesh: Mesh| on_screen(mesh)));
}

/// Each mesh whose clip bounds have a width and a height of at least one pixel, wherever
/// they lie, is drawn from a prepared layer, behind those before it: with its clip bounds
/// as the scissor rectangle, by the pipeline of its kind, with its own indices, from where
/// they were written, as many as a word can say.
pub proof fn meshes_on_screen_are_drawn_in_their_bounds(
    layer: LayerModel,
    meshes: Seq<Mesh>,
    solid: BindGroupLayout,
    gradient: BindGroupLayout,
    i: int,
)
    requires
        plan::addressable(meshes),
        0 <= i < meshes.len(),
        bounds_of(meshes[i]).width >= 1,
        bounds_of(meshes[i]).height >= 1,
    ensures
        ({
            let prepared = layer.prepared(meshes, solid, gradient);
            let uploads = layer.uploads(meshes, solid, gradient);
            let first = uploads.len() - 3 * meshes.len();
            let draws = drawn(plan::draws(prepared, meshes, meshes.len() as int));
            let number = drawable(meshes.take(i)).len();
            let (setup, draw) = draws[number as int];
            &&& number < draws.len()
            &&& setup.scissor == Some(bounds_of(meshes[i]))
            &&& setup.pipeline == Some(kind_of(meshes[i]))
            &&& setup.indices matches Some((slot, offset, format)) && {
                &&& slot == Slot::Indices
                &&& offset == 4 * total_indices(meshes.take(i))
                &&& format == IndexFormat::Uint32
                &&& uploads[first + 3 * i] == Upload::Write {
                    slot,
                    offset,
                    contents: Contents::Indices(i as usize),
                }
            }
            &&& draw matches Draw::DrawIndexed {
                first_index,
                end_index,
                base_vertex,
                first_instance,
                end_instance,
            } && {
                &&& first_index == 0
                &&& end_index == lower_bits(data_of(meshes[i]).indices as nat)
                &&& base_vertex == 0
                &&& first_instance == 0
                &&& end_instance == 1
            }
        }),
{
    let n = meshes.len() as int;
    let prepared = layer.prepared(meshes, solid, gradient);
    lemma_drawn(prepared, meshes, i, n);
    prepared_layers_remember_where_data_is(layer, meshes, solid, gradient, i);
    meshes_are_written_with_their_own_data(layer, meshes, solid, gradient, i);
}

/// All meshes of a kind are on screen, so leaving out the others changes nothing.
proof fn lemma_none_hidden(meshes: Seq<Mesh>, kind: Kind, i: int)
    requires
        0 <= i <= meshes.len(),
        forall|j: int|
            0 <= j < i && kind_of(#[trigger] meshes[j]) == kind ==> on_screen(meshes[j]),
    ensures
        of_kind(drawable(meshes.take(i)), kind) == of_kind(meshes.take(i), kind),
    decreases i,
{
    if i == 0 {
        reveal(Seq::filter);
        assert(meshes.take(0) =~= Seq::empty());
    } else {
        let before = meshes.take(i - 1);
        let last = meshes[i - 1];
        lemma_none_hidden(meshes, kind, i - 1);
        assert(meshes.take(i) =~= before.push(last));
        lemma_one_more(before, last, kind);
        lemma_one_more(drawable(before), last, kind);
    }
}

/// A mesh on screen is drawn from a prepared layer with its own vertices and constants,
/// from where they were written, provided that no mesh of its kind before it is off
/// screen. Of where the constants start, the lower 32 bits are given.
pub proof fn meshes_on_screen_are_drawn_with_their_own_data(
    layer: LayerModel,
    meshes: Seq<Mesh>,
    solid: BindGroupLayout,
    gradient: BindGroupLayout,
    i: int,
)
    requires
        plan::addressable(meshes),
        0 <= i < meshes.len(),
        on_screen(meshes[i]),
        forall|j: int|
            0 <= j < i && kind_of(#[trigger] meshes[j]) == kind_of(meshes[i]) ==> on_screen(
                meshes[j],
            ),
    ensures
        ({
            let kind = kind_of(meshes[i]);
            let prepared = layer.prepared(meshes, solid, gradient);
            let uploads = layer.uploads(meshes, solid, gradient);
            let first = uploads.len() - 3 * meshes.len();
            let draws = drawn(plan::draws(prepared, meshes, meshes.len() as int));
            let (setup, _) = draws[drawable(meshes.take(i)).len() as int];
            &&& setup.vertices matches Some((index, slot, offset)) && {
                &&& index == 0
                &&& slot == Slot::Vertices(kind)
                &&& uploads[first + 3 * i + 1] == Upload::Write {
                    slot,
                    offset,
                    contents: Contents::Vertices(i as usize),
                }
            }
            &&& setup.constants matches Some((index, group, dynamic_offset)) && {
                &&& index == 0
                &&& group == kind
                &&& uploads[first + 3 * i + 2] matches Upload::Write { slot, offset, contents } && {
                    &&& slot == Slot::Uniforms(kind)
                    &&& dynamic_offset == lower_bits(offset as nat)
                    &&& contents matches Contents::Uniforms(uniforms) && uniforms.transform
                        == words_of(meshes[i])
                }
            }
        }),
{
    let n = meshes.len() as int;
    let kind = kind_of(meshes[i]);
    let prepared = layer.prepared(meshes, solid, gradient);
    lemma_drawn(prepared, meshes, i, n);
    lemma_none_hidden(meshes, kind, i);
    prepared_layers_remember_where_data_is(layer, meshes, solid, gradient, i);
    meshes_are_written_with_their_own_data(layer, meshes, solid, gradient, i);
}

} // verus!
