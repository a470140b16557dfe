//! What holds of the library as a whole.
use crate::antialiasing::{Antialiasing, ScaleFactor, MSAA};
use crate::buffer::BufferModel;
use crate::command::{Contents, Draw, Slot, Upload};
use crate::plan::{FamilyModel, LayerModel};
use crate::mesh::{Kind, Mesh};
use crate::pipeline::{PipelineModel, Prepared, Target};
use crate::resource::{BindGroup, BindGroupLayout, BufferDescriptor, IndexFormat};
use crate::uniforms::{Uniforms, UNIFORMS_SIZE};
use crate::{antialiasing, gradient, mesh, pipeline, plan, solid};
use vstd::prelude::*;

verus! {

/// There is one vertex offset for each mesh of a kind.
pub proof fn lemma_vertex_offsets_len(meshes: Seq<Mesh>, kind: Kind, n: int)
    requires
        0 <= n,
    ensures
        plan::vertex_offsets(meshes, kind, n).len() == mesh::rank(meshes, kind, n),
    decreases n,
{
    if 0 < n {
        lemma_vertex_offsets_len(meshes, kind, n - 1);
    }
}

/// The vertex offset of a mesh stands at the mesh's number among those of its kind.
pub proof fn lemma_vertex_offsets_at(meshes: Seq<Mesh>, i: int, n: int)
    requires
        0 <= i < n,
    ensures
        mesh::rank(meshes, meshes[i].kind(), i) < mesh::rank(
            meshes,
            meshes[i].kind(),
            n,
        ),
        plan::vertex_offsets(meshes, meshes[i].kind(), n)[mesh::rank(
            meshes,
            meshes[i].kind(),
            i,
        ) as int] == plan::vertex_offset(meshes, meshes[i].kind(), i) as u64,
    decreases n,
{
    let kind = meshes[i].kind();
    lemma_vertex_offsets_len(meshes, kind, n - 1);
    if i < n - 1 {
        lemma_vertex_offsets_at(meshes, i, n - 1);
    }
}

/// A layer that was prepared for some meshes holds something for each of them, so
/// they can be rendered from it.
pub proof fn prepared_meshes_can_be_rendered(
    layer: LayerModel,
    meshes: Seq<Mesh>,
    solid: BindGroupLayout,
    gradient: BindGroupLayout,
)
    ensures
        layer.prepared(meshes, solid, gradient).renderable(meshes),
{
    reveal(LayerModel::prepared);
    let n = meshes.len() as int;
    let prepared = layer.prepared(meshes, solid, gradient);
    assert forall|i: int| 0 <= i < n && (#[trigger] meshes[i]).visible() implies {
        let kind = meshes[i].kind();
        &&& i < prepared.index_strides.len()
        &&& i < prepared.index_buffer.offsets.len()
        &&& mesh::visible_rank(meshes, kind, i) < prepared.family(
            kind,
        ).vertices.offsets.len()
    } by {
        let kind = meshes[i].kind();
        lemma_vertex_offsets_len(meshes, kind, n);
        lemma_vertex_offsets_at(meshes, i, n);
        mesh::lemma_rank_bounds(meshes, kind, i);
    }
}

/// As many meshes of a kind are visible as there are, if none is hidden.
proof fn lemma_all_visible(meshes: Seq<Mesh>, kind: Kind, i: int)
    requires
        0 <= i <= meshes.len(),
        forall|j: int| 0 <= j < i && (#[trigger] meshes[j]).kind() == kind ==> meshes[j].visible(),
    ensures
        mesh::visible_rank(meshes, kind, i) == mesh::rank(meshes, kind, i),
    decreases i,
{
    if 0 < i {
        lemma_all_visible(meshes, kind, i - 1);
    }
}

/// A visible mesh is drawn within its own clip bounds and with its own indices: from
/// where they were written, and all of them if a word can hold their number.
pub proof fn meshes_are_drawn_with_their_indices(
    layer: LayerModel,
    meshes: Seq<Mesh>,
    solid: BindGroupLayout,
    gradient: BindGroupLayout,
    i: int,
)
    requires
        0 <= i < meshes.len(),
        meshes[i].visible(),
    ensures
        ({
            let commands = plan::mesh_draws(
                layer.prepared(meshes, solid, gradient),
                meshes,
                i,
            );
            let offset = plan::index_offset(meshes, i) as u64;
            &&& plan::mesh_writes(meshes, i).contains(
                Upload::Write {
                    slot: Slot::Indices,
                    offset,
                    contents: Contents::Indices(i as usize),
                },
            )
            &&& commands.contains(
                Draw::SetIndexBuffer { slot: Slot::Indices, offset, format: IndexFormat::Uint32 },
            )
            &&& commands.first() == Draw::SetScissorRect(meshes[i].clip_bounds())
            &&& meshes[i].buffers().indices <= u32::MAX ==> commands.last() == Draw::DrawIndexed {
                first_index: 0,
                end_index: meshes[i].buffers().indices as u32,
                base_vertex: 0,
                first_instance: 0,
                end_instance: 1,
            }
        }),
{
    reveal(LayerModel::prepared);
    let commands = plan::mesh_draws(layer.prepared(meshes, solid, gradient), meshes, i);
    let writes = plan::mesh_writes(meshes, i);
    assert(writes[0] is Write);
    assert(commands[commands.len() - 2] is SetIndexBuffer);
}

/// A visible mesh is drawn with its own vertices, from where they were written, provided
/// that no mesh of its kind before it is hidden. So it is with its own constants, if a
/// word can hold where they start.
///
/// Behind a hidden mesh of its kind it would be drawn with what was written for an
/// earlier one.
pub proof fn meshes_are_drawn_with_their_data(
    layer: LayerModel,
    meshes: Seq<Mesh>,
    solid: BindGroupLayout,
    gradient: BindGroupLayout,
    i: int,
)
    requires
        0 <= i < meshes.len(),
        meshes[i].visible(),
        forall|j: int|
            0 <= j < i && (#[trigger] meshes[j]).kind() == meshes[i].kind()
                ==> meshes[j].visible(),
    ensures
        ({
            let kind = meshes[i].kind();
            let commands = plan::mesh_draws(
                layer.prepared(meshes, solid, gradient),
                meshes,
                i,
            );
            let vertices = plan::vertex_offset(meshes, kind, i) as u64;
            let uniforms = plan::uniform_offset(meshes, kind, i);
            &&& plan::mesh_writes(meshes, i).contains(
                Upload::Write {
                    slot: Slot::Vertices(kind),
                    offset: vertices,
                    contents: Contents::Vertices(i as usize),
                },
            )
            &&& commands.contains(
                Draw::SetVertexBuffer { index: 0, slot: Slot::Vertices(kind), offset: vertices },
            )
            &&& plan::mesh_writes(meshes, i).contains(
                Upload::Write {
                    slot: Slot::Uniforms(kind),
                    offset: uniforms as u64,
                    contents: Contents::Uniforms(
                        Uniforms::of(meshes[i].transformation()),
                    ),
                },
            )
            &&& uniforms <= u32::MAX ==> commands.contains(
                Draw::SetBindGroup { index: 0, kind, dynamic_offset: uniforms as u32 },
            )
        }),
{
    reveal(LayerModel::prepared);
    let kind = meshes[i].kind();
    let commands = plan::mesh_draws(layer.prepared(meshes, solid, gradient), meshes, i);
    let writes = plan::mesh_writes(meshes, i);
    lemma_all_visible(meshes, kind, i);
    lemma_vertex_offsets_at(meshes, i, meshes.len() as int);
    assert(writes[1] is Write && writes[2] is Write);
    assert(commands[commands.len() - 3] is SetVertexBuffer);
    assert(commands[commands.len() - 4] is SetBindGroup);
}

/// A number of bytes that is a multiple of 256 stays one when its lower 32 bits are
/// taken.
proof fn lemma_low_word_aligned(k: nat)
    ensures
        plan::low_word(UNIFORMS_SIZE as nat * k) % 256 == 0,
{
    let x = (256 * k) as int;
    vstd::arithmetic::div_mod::lemma_mod_mod(x, 256, 0x100_0000);
    assert(x % 256 == 0);
}

/// The constants of a mesh are bound at multiples of 256.
pub proof fn bound_constants_are_aligned(layer: LayerModel, meshes: Seq<Mesh>, n: int)
    requires
        0 <= n <= meshes.len(),
    ensures
        forall|k: int|
            0 <= k < plan::draws(layer, meshes, n).len() ==> (
            #[trigger] plan::draws(layer, meshes, n)[k] matches Draw::SetBindGroup {
                dynamic_offset,
                ..
            } ==> dynamic_offset % 256 == 0),
    decreases n,
{
    if 0 < n {
        bound_constants_are_aligned(layer, meshes, n - 1);
        let before = plan::draws(layer, meshes, n - 1);
        let last = plan::mesh_draws(layer, meshes, n - 1);
        assert(plan::draws(layer, meshes, n) == before + last);
        lemma_low_word_aligned(
            mesh::visible_rank(meshes, meshes[n - 1].kind(), n - 1),
        );
        assert forall|k: int| 0 <= k < (before + last).len() implies (
        #[trigger] (before + last)[k] matches Draw::SetBindGroup { dynamic_offset, .. }
            ==> dynamic_offset % 256 == 0) by {
            if k < before.len() {
                assert((before + last)[k] == before[k]);
            } else {
                assert((before + last)[k] == last[k - before.len()]);
            }
        }
    }
}

/// The number of bytes that a step writes.
pub open spec fn written_size(meshes: Seq<Mesh>, contents: Contents) -> nat {
    match contents {
        Contents::Indices(i) => plan::INDEX_SIZE as nat
            * meshes[i as int].buffers().indices as nat,
        Contents::Vertices(i) => plan::vertex_size(meshes[i as int].kind())
            * meshes[i as int].buffers().vertices as nat,
        Contents::Uniforms(_) => UNIFORMS_SIZE as nat,
    }
}

/// The number of bytes that the meshes need in a buffer.
pub open spec fn needed_size(meshes: Seq<Mesh>, slot: Slot) -> nat {
    let n = meshes.len() as int;
    match slot {
        Slot::Indices => plan::index_offset(meshes, n),
        Slot::Vertices(kind) => plan::vertex_offset(meshes, kind, n),
        Slot::Uniforms(kind) => plan::uniform_offset(meshes, kind, n),
    }
}

/// The buffer in a slot.
pub open spec fn buffer_in(layer: LayerModel, slot: Slot) -> BufferDescriptor {
    match slot {
        Slot::Indices => layer.index_buffer.raw,
        Slot::Vertices(kind) => layer.family(kind).vertices.raw,
        Slot::Uniforms(kind) => layer.family(kind).uniforms.raw,
    }
}

/// Every mesh is of one of the two kinds.
pub proof fn lemma_ranks_add_up(meshes: Seq<Mesh>, n: int)
    requires
        0 <= n,
    ensures
        mesh::rank(meshes, Kind::Solid, n) + mesh::rank(meshes, Kind::Gradient, n)
            == n,
    decreases n,
{
    if 0 < n {
        lemma_ranks_add_up(meshes, n - 1);
    }
}

/// Every write of the mesh with the given number stays within what all meshes need.
proof fn lemma_mesh_writes_in_bounds(meshes: Seq<Mesh>, i: int)
    requires
        0 <= i < meshes.len(),
        plan::addressable(meshes),
    ensures
        forall|k: int|
            0 <= k < 3 ==> (#[trigger] plan::mesh_writes(
                meshes,
                i,
            )[k] matches Upload::Write { slot, offset, contents } && {
                &&& offset + written_size(meshes, contents) <= needed_size(meshes, slot)
                &&& slot is Uniforms ==> offset % 256 == 0
            }),
{
    let kind = meshes[i].kind();
    plan::lemma_offsets(meshes, kind, i);
    lemma_ranks_add_up(meshes, meshes.len() as int);
    assert(i as usize == i);
    let writes = plan::mesh_writes(meshes, i);
    assert(plan::uniform_offset(meshes, kind, i) % 256 == 0);
    assert forall|k: int| 0 <= k < 3 implies (#[trigger] writes[k] matches Upload::Write {
        slot,
        offset,
        contents,
    } && {
        &&& offset + written_size(meshes, contents) <= needed_size(meshes, slot)
        &&& slot is Uniforms ==> offset % 256 == 0
    }) by {
        assert(k == 0 || k == 1 || k == 2);
    }
}

/// Every write stays within its buffer, and constants are written at multiples of 256.
pub proof fn writes_stay_in_bounds(
    layer: LayerModel,
    meshes: Seq<Mesh>,
    solid: BindGroupLayout,
    gradient: BindGroupLayout,
)
    requires
        layer.wf(),
        plan::addressable(meshes),
    ensures
        forall|k: int|
            0 <= k < plan::writes(meshes, meshes.len() as int).len() ==> (
            #[trigger] plan::writes(
                meshes,
                meshes.len() as int,
            )[k] matches Upload::Write { slot, offset, contents } && {
                &&& offset + written_size(meshes, contents) <= buffer_in(
                    layer.prepared(meshes, solid, gradient),
                    slot,
                ).size
                &&& slot is Uniforms ==> offset % 256 == 0
            }),
{
    let n = meshes.len() as int;
    reveal(LayerModel::prepared);
    plan::lemma_resized(layer, meshes, solid, gradient);
    lemma_writes_in_bounds(meshes, n);
    let prepared = layer.prepared(meshes, solid, gradient);
    assert forall|slot: Slot| needed_size(meshes, slot) <= #[trigger] buffer_in(
        prepared,
        slot,
    ).size by {
        match slot {
            Slot::Indices => {},
            Slot::Vertices(kind) => {
                match kind {
                    Kind::Solid => {},
                    Kind::Gradient => {},
                }
            },
            Slot::Uniforms(kind) => {
                match kind {
                    Kind::Solid => {},
                    Kind::Gradient => {},
                }
            },
        }
    }
}

/// Every write of the first `n` meshes stays within what all of them need.
proof fn lemma_writes_in_bounds(meshes: Seq<Mesh>, n: int)
    requires
        0 <= n <= meshes.len(),
        plan::addressable(meshes),
    ensures
        forall|k: int|
            0 <= k < plan::writes(meshes, n).len() ==> (
            #[trigger] plan::writes(meshes, n)[k] matches Upload::Write {
                slot,
                offset,
                contents,
            } && {
                &&& offset + written_size(meshes, contents) <= needed_size(meshes, slot)
                &&& slot is Uniforms ==> offset % 256 == 0
            }),
    decreases n,
{
    if 0 < n {
        lemma_writes_in_bounds(meshes, n - 1);
        lemma_mesh_writes_in_bounds(meshes, n - 1);
        let before = plan::writes(meshes, n - 1);
        let last = plan::mesh_writes(meshes, n - 1);
        assert(plan::writes(meshes, n) == before + last);
        assert forall|k: int| 0 <= k < (before + last).len() implies (
        #[trigger] (before + last)[k] matches Upload::Write { slot, offset, contents } && {
            &&& offset + written_size(meshes, contents) <= needed_size(meshes, slot)
            &&& slot is Uniforms ==> offset % 256 == 0
        }) by {
            if k < before.len() {
                assert((before + last)[k] == before[k]);
            } else {
                assert((before + last)[k] == last[k - before.len()]);
            }
        }
    }
}

/// The data of one mesh ends before that of a later mesh begins.
pub proof fn meshes_do_not_overlap(meshes: Seq<Mesh>, i: int, j: int)
    requires
        0 <= i < j < meshes.len(),
    ensures
        plan::index_offset(meshes, i) + plan::INDEX_SIZE
            * meshes[i].buffers().indices <= plan::index_offset(meshes, j),
        meshes[i].kind() == meshes[j].kind() ==> {
            let kind = meshes[i].kind();
            &&& plan::vertex_offset(meshes, kind, i) + plan::vertex_size(kind)
                * meshes[i].buffers().vertices <= plan::vertex_offset(meshes, kind, j)
            &&& plan::uniform_offset(meshes, kind, i) + UNIFORMS_SIZE
                <= plan::uniform_offset(meshes, kind, j)
        },
{
    let kind = meshes[i].kind();
    plan::lemma_offsets(meshes, kind, i);
    mesh::lemma_monotonic(meshes, i + 1, j);
    let size = plan::vertex_size(kind) as int;
    let next = mesh::vertices_before(meshes, kind, i + 1) as int;
    let later = mesh::vertices_before(meshes, kind, j) as int;
    assert(mesh::rank(meshes, kind, i + 1) <= mesh::rank(meshes, kind, j));
    assert(size * next <= size * later) by (nonlinear_arith)
        requires
            0 <= size,
            next <= later,
    ;
}

/// Preparing a layer keeps the label and the usage of its buffers, and never makes one
/// smaller.
pub proof fn buffers_never_shrink(
    layer: LayerModel,
    meshes: Seq<Mesh>,
    solid: BindGroupLayout,
    gradient: BindGroupLayout,
    slot: Slot,
)
    requires
        layer.wf(),
        plan::addressable(meshes),
    ensures
        ({
            let before = buffer_in(layer, slot);
            let after = buffer_in(layer.prepared(meshes, solid, gradient), slot);
            &&& before.size <= after.size
            &&& before.label == after.label
            &&& before.usage == after.usage
        }),
{
    reveal(LayerModel::prepared);
    plan::lemma_countable(meshes);
    match slot {
        Slot::Indices => {},
        Slot::Vertices(kind) => {
            match kind {
                Kind::Solid => {},
                Kind::Gradient => {},
            }
        },
        Slot::Uniforms(kind) => {
            match kind {
                Kind::Solid => {},
                Kind::Gradient => {},
            }
        },
    }
}

/// The bind groups of a layer refer to its uniform buffers as they are, before and
/// after it is prepared.
pub proof fn bind_groups_stay_current(
    layer: LayerModel,
    meshes: Seq<Mesh>,
    solid: BindGroupLayout,
    gradient: BindGroupLayout,
    kind: Kind,
)
    requires
        layer.wf(),
    ensures
        layer.family(kind).constants.buffer == buffer_in(layer, Slot::Uniforms(kind)),
        layer.prepared(meshes, solid, gradient).family(kind).constants.buffer == buffer_in(
            layer.prepared(meshes, solid, gradient),
            Slot::Uniforms(kind),
        ),
{
    reveal(LayerModel::prepared);
    match kind {
        Kind::Solid => {},
        Kind::Gradient => {},
    }
}

/// Preparing a layer once more for the same meshes changes nothing and creates nothing,
/// but writes everything again.
pub proof fn preparing_again_only_writes(
    layer: LayerModel,
    meshes: Seq<Mesh>,
    solid: BindGroupLayout,
    gradient: BindGroupLayout,
)
    requires
        layer.wf(),
        plan::addressable(meshes),
    ensures
        ({
            let prepared = layer.prepared(meshes, solid, gradient);
            &&& prepared.prepared(meshes, solid, gradient) == prepared
            &&& prepared.uploads(meshes, solid, gradient) == plan::writes(
                meshes,
                meshes.len() as int,
            )
        }),
{
    reveal(LayerModel::prepared);
    reveal(LayerModel::uploads);
    plan::lemma_resized(layer, meshes, solid, gradient);
    plan::lemma_countable(meshes);
    let prepared = layer.prepared(meshes, solid, gradient);
    let again = prepared.prepared(meshes, solid, gradient);
    let growths = prepared.growths(meshes, solid, gradient);
    assert(growths =~= Seq::empty());
    assert(growths + plan::writes(meshes, meshes.len() as int) =~= plan::writes(
        meshes,
        meshes.len() as int,
    ));
    assert(again =~= prepared);
}

/// The number of draws among some commands.
pub open spec fn draw_count(commands: Seq<Draw>) -> nat
    decreases commands.len(),
{
    if commands.len() == 0 {
        0
    } else {
        draw_count(commands.drop_last()) + (if commands.last() is DrawIndexed {
            1nat
        } else {
            0nat
        })
    }
}

/// The pipeline in use after some commands.
pub open spec fn current_pipeline(commands: Seq<Draw>) -> Option<Kind>
    decreases commands.len(),
{
    if commands.len() == 0 {
        None
    } else {
        match commands.last() {
            Draw::SetPipeline(kind) => Some(kind),
            _ => current_pipeline(commands.drop_last()),
        }
    }
}

/// How one more command changes the number of draws and the pipeline in use.
proof fn lemma_push(commands: Seq<Draw>, command: Draw)
    ensures
        draw_count(commands.push(command)) == draw_count(commands) + (if command is DrawIndexed {
            1nat
        } else {
            0nat
        }),
        current_pipeline(commands.push(command)) == match command {
            Draw::SetPipeline(kind) => Some(kind),
            _ => current_pipeline(commands),
        },
{
    assert(commands.push(command).drop_last() =~= commands);
}

/// What the commands of one mesh do to the number of draws and the pipeline in use.
proof fn lemma_mesh_draws(layer: LayerModel, meshes: Seq<Mesh>, i: int, before: Seq<Draw>)
    requires
        0 <= i < meshes.len(),
        current_pipeline(before) == mesh::last_visible(meshes, i),
    ensures
        ({
            let commands = plan::mesh_draws(layer, meshes, i);
            if meshes[i].visible() {
                &&& draw_count(before + commands) == draw_count(before) + 1
                &&& current_pipeline(before + commands) == Some(meshes[i].kind())
                &&& current_pipeline(before + commands.drop_last()) == Some(meshes[i].kind())
            } else {
                before + commands == before
            }
        }),
{
    let commands = plan::mesh_draws(layer, meshes, i);
    if meshes[i].visible() {
        let n = commands.len() as int;
        let s0 = before.push(commands[0]);
        let s1 = if n == 5 {
            s0
        } else {
            s0.push(commands[1])
        };
        let s2 = s1.push(commands[n - 4]);
        let s3 = s2.push(commands[n - 3]);
        let s4 = s3.push(commands[n - 2]);
        let s5 = s4.push(commands[n - 1]);
        lemma_push(before, commands[0]);
        lemma_push(s0, commands[1]);
        lemma_push(s1, commands[n - 4]);
        lemma_push(s2, commands[n - 3]);
        lemma_push(s3, commands[n - 2]);
        lemma_push(s4, commands[n - 1]);
        assert(before + commands.drop_last() =~= s4);
        assert(before + commands =~= s5);
    } else {
        assert(before + commands =~= before);
    }
}

/// Each visible mesh is drawn once, and no other. After the first `n` meshes the pipeline
/// of the last visible one is in use.
pub proof fn visible_meshes_are_drawn_once(layer: LayerModel, meshes: Seq<Mesh>, n: int)
    requires
        0 <= n <= meshes.len(),
    ensures
        draw_count(plan::draws(layer, meshes, n)) == mesh::visible_rank(
            meshes,
            Kind::Solid,
            n,
        ) + mesh::visible_rank(meshes, Kind::Gradient, n),
        current_pipeline(plan::draws(layer, meshes, n)) == mesh::last_visible(
            meshes,
            n,
        ),
    decreases n,
{
    if 0 < n {
        visible_meshes_are_drawn_once(layer, meshes, n - 1);
        lemma_mesh_draws(layer, meshes, n - 1, plan::draws(layer, meshes, n - 1));
    }
}

/// When a mesh is drawn, the pipeline of its kind is in use.
pub proof fn meshes_are_drawn_by_their_pipeline(layer: LayerModel, meshes: Seq<Mesh>, i: int)
    requires
        0 <= i < meshes.len(),
        meshes[i].visible(),
    ensures
        current_pipeline(
            plan::draws(layer, meshes, i) + plan::mesh_draws(
                layer,
                meshes,
                i,
            ).drop_last(),
        ) == Some(meshes[i].kind()),
        plan::mesh_draws(layer, meshes, i).last() is DrawIndexed,
{
    visible_meshes_are_drawn_once(layer, meshes, i);
    lemma_mesh_draws(layer, meshes, i, plan::draws(layer, meshes, i));
}

/// A pipeline is set for a mesh only if another one is in use.
pub proof fn pipelines_are_set_only_to_change(layer: LayerModel, meshes: Seq<Mesh>, i: int)
    requires
        0 <= i < meshes.len(),
    ensures
        forall|k: int|
            0 <= k < plan::mesh_draws(layer, meshes, i).len() ==> (
            #[trigger] plan::mesh_draws(layer, meshes, i)[k] matches Draw::SetPipeline(
                kind,
            ) ==> current_pipeline(plan::draws(layer, meshes, i)) != Some(kind)),
{
    visible_meshes_are_drawn_once(layer, meshes, i);
}

/// Without antialiasing there is no strategy. A strategy that the format supports is
/// used as asked for. Whatever is asked for, the strategy is one that the format
/// supports, or four samples per pixel.
pub proof fn strategies_are_honoured_if_supported(
    antialiasing: Antialiasing,
    scale_factor: ScaleFactor,
    macos: bool,
    flags: u32,
)
    ensures
        antialiasing == Antialiasing::Disabled ==> antialiasing::chosen(
            antialiasing,
            scale_factor,
            macos,
            flags,
        ) is None,
        antialiasing matches Antialiasing::MSAA(msaa) ==> antialiasing::supports(
            flags,
            msaa.samples(),
        ) ==> antialiasing::chosen(antialiasing, scale_factor, macos, flags) == Some(msaa),
        antialiasing::chosen(antialiasing, scale_factor, macos, flags) matches Some(msaa)
            ==> antialiasing::supports(flags, msaa.samples()) || msaa == MSAA::X4,
{
}

/// When a pipeline is compiled for a wish and a target, and then once more for the same
/// ones, the second time does nothing: it asks for nothing to be created, and the pipeline
/// stays as it is.
pub proof fn compiling_again_does_nothing(
    pre: PipelineModel,
    mid: PipelineModel,
    post: PipelineModel,
    antialiasing: Antialiasing,
    target: Target,
    first: bool,
    second: bool,
)
    requires
        pre.compiles_to(mid, pre.chosen(antialiasing, target), first),
        mid.compiles_to(post, mid.chosen(antialiasing, target), second),
    ensures
        !second,
        post == mid,
{
}

/// When a pipeline that is unused, or ready as compiling left it, is compiled, all that it
/// then has ready samples alike and draws to its format: with one sample per pixel if
/// there is no blit, and with as many as the blit otherwise.
pub proof fn compiled_pipelines_sample_alike(
    pre: PipelineModel,
    post: PipelineModel,
    antialiasing: Antialiasing,
    target: Target,
    compiled: bool,
)
    requires
        pre.settled(),
        pre.compiles_to(post, pre.chosen(antialiasing, target), compiled),
    ensures
        post.state is Ready,
        post.state.samples_alike(pre.format),
        post.settled(),
{
}

/// Whatever a sound pipeline has ready samples alike and draws to its format.
pub proof fn everything_ready_samples_alike(pipeline: PipelineModel)
    requires
        pipeline.wf(),
        pipeline.state is Ready,
    ensures
        pipeline.state.samples_alike(pipeline.format),
{
}

/// On a sound pipeline a layer can always be prepared.
pub proof fn sound_pipelines_are_not_stalled(pipeline: PipelineModel)
    requires
        pipeline.wf(),
    ensures
        !pipeline.stalled(),
{
}

/// Only the first layer of a frame decides on the strategy. The layers prepared before
/// in the frame stay as they are.
pub proof fn earlier_layers_stay(
    pre: PipelineModel,
    post: PipelineModel,
    antialiasing: Antialiasing,
    target: Target,
    meshes: Seq<Mesh>,
    prepared: Prepared,
)
    requires
        pre.wf(),
        pre.prepares_to(post, antialiasing, target, meshes, prepared),
        0 < pre.prepare_layer,
    ensures
        post.state == pre.state,
        pre.layers.len() <= post.layers.len(),
        forall|i: int|
            0 <= i < pre.layers.len() && i != pre.prepare_layer ==> #[trigger] post.layers[i]
                == pre.layers[i],
{
}

/// After the first layer of a frame was prepared, the strategy is the one that the wish
/// and the target come to.
pub proof fn frames_follow_the_wish(
    pre: PipelineModel,
    post: PipelineModel,
    antialiasing: Antialiasing,
    target: Target,
    meshes: Seq<Mesh>,
    prepared: Prepared,
)
    requires
        pre.wf(),
        pre.prepares_to(post, antialiasing, target, meshes, prepared),
        pre.prepare_layer == 0,
    ensures
        post.state.strategy() == Some(pre.chosen(antialiasing, target)),
{
}

/// A layer that was just prepared for some meshes can be rendered with them.
pub proof fn prepared_layers_can_be_rendered(
    pre: PipelineModel,
    post: PipelineModel,
    antialiasing: Antialiasing,
    target: Target,
    meshes: Seq<Mesh>,
    prepared: Prepared,
)
    requires
        pre.wf(),
        pre.prepares_to(post, antialiasing, target, meshes, prepared),
    ensures
        prepared.layer < post.layers.len(),
        post.layers[prepared.layer as int].renderable(meshes),
{
    let layers = if prepared.compiled {
        Seq::<LayerModel>::empty()
    } else {
        pre.layers
    };
    let layer = if prepared.created {
        pipeline::empty_layer()
    } else {
        layers[prepared.layer as int]
    };
    prepared_meshes_can_be_rendered(
        layer,
        meshes,
        solid::constants_layout(),
        gradient::constants_layout(),
    );
}

/// In the next frame the layers of this one are used again, from the first: as long as
/// the strategy stays, no layer is created while there is one left.
pub proof fn layers_are_used_again(
    pre: PipelineModel,
    post: PipelineModel,
    antialiasing: Antialiasing,
    target: Target,
    meshes: Seq<Mesh>,
    prepared: Prepared,
)
    requires
        pre.prepares_to(post, antialiasing, target, meshes, prepared),
        pre.prepare_layer < pre.layers.len(),
        pre.prepare_layer == 0 ==> pre.state.strategy() == Some(pre.chosen(antialiasing, target)),
    ensures
        !prepared.compiled,
        !prepared.created,
        post.layers.len() == pre.layers.len(),
{
}

/// What the device holds for a layer.
#[verifier::ext_equal]
pub struct Device {
    /// The buffer in each slot.
    pub buffers: Map<Slot, BufferDescriptor>,
    /// The bind group of each kind.
    pub groups: Map<Kind, BindGroup>,
}

impl Device {
    /// The device after a step.
    pub open spec fn after(self, upload: Upload) -> Device {
        match upload {
            Upload::CreateBuffer { slot, buffer } => Device {
                buffers: self.buffers.insert(slot, buffer),
                ..self
            },
            Upload::CreateBindGroup { kind, group } => Device {
                groups: self.groups.insert(kind, group),
                ..self
            },
            Upload::Write { .. } => self,
        }
    }

    /// The device after some steps.
    pub open spec fn after_all(self, uploads: Seq<Upload>) -> Device
        decreases uploads.len(),
    {
        if uploads.len() == 0 {
            self
        } else {
            self.after_all(uploads.drop_last()).after(uploads.last())
        }
    }

    /// The device holds the buffers and the bind groups of the layer.
    pub open spec fn mirrors(self, layer: LayerModel) -> bool {
        &&& forall|slot: Slot| #[trigger]
            self.buffers.contains_key(slot) && self.buffers[slot] == buffer_in(layer, slot)
        &&& forall|kind: Kind| #[trigger]
            self.groups.contains_key(kind) && self.groups[kind] == layer.family(kind).constants
    }
}

/// Some steps after others.
proof fn lemma_after_concatenation(device: Device, a: Seq<Upload>, b: Seq<Upload>)
    ensures
        device.after_all(a + b) == device.after_all(a).after_all(b),
    decreases b.len(),
{
    if b.len() == 0 {
        assert(a + b =~= a);
    } else {
        lemma_after_concatenation(device, a, b.drop_last());
        assert((a + b).drop_last() =~= a + b.drop_last());
    }
}

/// A single step.
proof fn lemma_after_one(device: Device, upload: Upload)
    ensures
        device.after_all(seq![upload]) == device.after(upload),
{
    reveal_with_fuel(Device::after_all, 2);
    assert(seq![upload].drop_last() =~= Seq::empty());
}

/// Writing leaves the resources as they are.
proof fn lemma_after_writes(device: Device, meshes: Seq<Mesh>, n: int)
    requires
        0 <= n <= meshes.len(),
    ensures
        device.after_all(plan::writes(meshes, n)) == device,
    decreases n,
{
    if 0 < n {
        let last = plan::mesh_writes(meshes, n - 1);
        lemma_after_writes(device, meshes, n - 1);
        lemma_after_concatenation(device, plan::writes(meshes, n - 1), last);
        assert(last =~= seq![last[0]] + seq![last[1]] + seq![last[2]]);
        lemma_after_concatenation(device, seq![last[0]] + seq![last[1]], seq![last[2]]);
        lemma_after_concatenation(device, seq![last[0]], seq![last[1]]);
        lemma_after_one(device, last[0]);
        lemma_after_one(device, last[1]);
        lemma_after_one(device, last[2]);
    }
}

/// Making room puts the buffer that has it in the slot.
proof fn lemma_after_growth(device: Device, slot: Slot, buffer: BufferModel, count: nat)
    requires
        device.buffers.contains_key(slot),
        device.buffers[slot] == buffer.raw,
    ensures
        device.after_all(plan::growth(slot, buffer, count)) == (Device {
            buffers: device.buffers.insert(slot, buffer.grown(count)),
            ..device
        }),
{
    if buffer.holds(count) {
        assert(device.buffers.insert(slot, buffer.raw) =~= device.buffers);
    } else {
        lemma_after_one(device, plan::growth(slot, buffer, count)[0]);
        assert(plan::growth(slot, buffer, count) =~= seq![plan::growth(slot, buffer, count)[0]]);
    }
}

/// Making room for constants puts the buffer that has it in the slot, and a bind group
/// that refers to that buffer beside it.
proof fn lemma_after_constants_growth(
    device: Device,
    kind: Kind,
    family: FamilyModel,
    count: nat,
    layout: BindGroupLayout,
)
    requires
        device.buffers.contains_key(Slot::Uniforms(kind)),
        device.buffers[Slot::Uniforms(kind)] == family.uniforms.raw,
        device.groups.contains_key(kind),
        device.groups[kind] == family.constants,
    ensures
        device.after_all(plan::constants_growth(kind, family.uniforms, count, layout)) == (Device {
            buffers: device.buffers.insert(Slot::Uniforms(kind), family.uniforms.grown(count)),
            groups: device.groups.insert(
                kind,
                if family.uniforms.holds(count) {
                    family.constants
                } else {
                    plan::constants_in(kind, family.uniforms.grown(count), layout)
                },
            ),
        }),
{
    let steps = plan::constants_growth(kind, family.uniforms, count, layout);
    if family.uniforms.holds(count) {
        assert(device.buffers.insert(Slot::Uniforms(kind), family.uniforms.raw)
            =~= device.buffers);
        assert(device.groups.insert(kind, family.constants) =~= device.groups);
    } else {
        assert(steps =~= seq![steps[0]] + seq![steps[1]]);
        lemma_after_concatenation(device, seq![steps[0]], seq![steps[1]]);
        lemma_after_one(device, steps[0]);
        lemma_after_one(device.after(steps[0]), steps[1]);
    }
}

/// The steps that prepare a layer bring a device that holds the layer's resources as they
/// were to hold them as they are.
pub proof fn uploads_keep_the_device_in_step(
    device: Device,
    layer: LayerModel,
    meshes: Seq<Mesh>,
    solid: BindGroupLayout,
    gradient: BindGroupLayout,
)
    requires
        device.mirrors(layer),
    ensures
        device.after_all(layer.uploads(meshes, solid, gradient)).mirrors(
            layer.prepared(meshes, solid, gradient),
        ),
{
    reveal(LayerModel::prepared);
    reveal(LayerModel::uploads);
    let n = meshes.len() as int;
    let g1 = plan::growth(
        Slot::Indices,
        layer.index_buffer,
        mesh::indices_before(meshes, n),
    );
    let g2 = plan::growth(
        Slot::Vertices(Kind::Solid),
        layer.solid.vertices,
        mesh::vertices_before(meshes, Kind::Solid, n),
    );
    let g3 = plan::growth(
        Slot::Vertices(Kind::Gradient),
        layer.gradient.vertices,
        mesh::vertices_before(meshes, Kind::Gradient, n),
    );
    let g4 = plan::constants_growth(
        Kind::Solid,
        layer.solid.uniforms,
        mesh::rank(meshes, Kind::Solid, n),
        solid,
    );
    let g5 = plan::constants_growth(
        Kind::Gradient,
        layer.gradient.uniforms,
        mesh::rank(meshes, Kind::Gradient, n),
        gradient,
    );
    let d1 = device.after_all(g1);
    let d2 = d1.after_all(g2);
    let d3 = d2.after_all(g3);
    let d4 = d3.after_all(g4);
    let d5 = d4.after_all(g5);
    lemma_after_concatenation(device, g1, g2);
    lemma_after_concatenation(device, g1 + g2, g3);
    lemma_after_concatenation(device, g1 + g2 + g3, g4);
    lemma_after_concatenation(device, g1 + g2 + g3 + g4, g5);
    lemma_after_concatenation(device, g1 + g2 + g3 + g4 + g5, plan::writes(meshes, n));
    lemma_after_writes(d5, meshes, n);
    assert(device.buffers.contains_key(Slot::Indices));
    assert(device.buffers.contains_key(Slot::Vertices(Kind::Solid)));
    assert(device.buffers.contains_key(Slot::Vertices(Kind::Gradient)));
    assert(device.buffers.contains_key(Slot::Uniforms(Kind::Solid)));
    assert(device.buffers.contains_key(Slot::Uniforms(Kind::Gradient)));
    assert(device.groups.contains_key(Kind::Solid));
    assert(device.groups.contains_key(Kind::Gradient));
    lemma_after_growth(
        device,
        Slot::Indices,
        layer.index_buffer,
        mesh::indices_before(meshes, n),
    );
    lemma_after_growth(
        d1,
        Slot::Vertices(Kind::Solid),
        layer.solid.vertices,
        mesh::vertices_before(meshes, Kind::Solid, n),
    );
    lemma_after_growth(
        d2,
        Slot::Vertices(Kind::Gradient),
        layer.gradient.vertices,
        mesh::vertices_before(meshes, Kind::Gradient, n),
    );
    lemma_after_constants_growth(
        d3,
        Kind::Solid,
        layer.solid,
        mesh::rank(meshes, Kind::Solid, n),
        solid,
    );
    lemma_after_constants_growth(
        d4,
        Kind::Gradient,
        layer.gradient,
        mesh::rank(meshes, Kind::Gradient, n),
        gradient,
    );
}

/// The steps that create a layer make any device hold its resources.
pub proof fn creations_set_the_device_up(device: Device, layer: LayerModel)
    ensures
        device.after_all(layer.creations()).mirrors(layer),
{
    reveal(LayerModel::creations);
    reveal_with_fuel(Device::after_all, 8);
    let steps = layer.creations();
    assert(steps.len() == 7);
    assert(steps.drop_last().drop_last().drop_last().drop_last().drop_last().drop_last().drop_last()
        =~= Seq::empty());
    let after = device.after_all(steps);
    assert(after == device.after(steps[0]).after(steps[1]).after(steps[2]).after(steps[3]).after(
        steps[4],
    ).after(steps[5]).after(steps[6]));
    assert forall|slot: Slot| #[trigger]
        after.buffers.contains_key(slot) && after.buffers[slot] == buffer_in(layer, slot) by {
        match slot {
            Slot::Indices => {},
            Slot::Vertices(kind) => {
                assert(kind == Kind::Solid || kind == Kind::Gradient);
            },
            Slot::Uniforms(kind) => {
                assert(kind == Kind::Solid || kind == Kind::Gradient);
            },
        }
    }
    assert forall|kind: Kind| #[trigger]
        after.groups.contains_key(kind) && after.groups[kind] == layer.family(kind).constants by {
        assert(kind == Kind::Solid || kind == Kind::Gradient);
    }
}

} // verus!
