//! What preparing and rendering the layers of a frame comes to.
use crate::antialiasing::{Antialiasing, MSAA};
use crate::command::{Contents, Slot, Upload};
use crate::laws_of_layers;
use crate::mesh::Mesh;
use crate::pipeline::{
    Attachment, LoadOp, PipelineModel, Prepared, RenderPass, State, StoreOp, Target,
};
use crate::plan::LayerModel;
use crate::{antialiasing, gradient, pipeline, plan, solid};
use vstd::prelude::*;

verus! {

/// What a state samples with: nothing if it is unused, one sample if there is no blit, and
/// the strategy of the blit if there is one.
pub open spec fn samples_with(state: State, msaa: Option<MSAA>) -> bool {
    match state {
        State::Unused => false,
        State::Ready { blit: None, .. } => msaa is None,
        State::Ready { blit: Some(blit), .. } => msaa == Some(blit.strategy),
    }
}

/// A pipeline chooses by the wish, the scale factor of the target, the platform and the
/// flags of the format, and by nothing else: not by the size of the target, the format, its
/// layers or its state.
pub proof fn pipelines_choose_by_wish_and_target(
    a: PipelineModel,
    b: PipelineModel,
    antialiasing: Antialiasing,
    target: Target,
    other: Target,
)
    ensures
        a.chosen(antialiasing, target) == antialiasing::chosen(
            antialiasing,
            target.scale_factor,
            a.platform.macos,
            a.format_features.flags,
        ),
        a.platform.macos == b.platform.macos && a.format_features.flags == b.format_features.flags
            && target.scale_factor == other.scale_factor ==> a.chosen(antialiasing, target)
            == b.chosen(antialiasing, other),
{
}

/// What a sound pipeline is: it has no fewer layers than were prepared in this frame, none
/// if it is unused, each of them sound and with the layouts of both pipelines, and what is
/// ready draws to its format as its blit says.
pub proof fn sound_pipelines_in_full(pipeline: PipelineModel)
    ensures
        pipeline.wf() <==> {
            &&& pipeline.prepare_layer <= pipeline.layers.len()
            &&& pipeline.state is Unused ==> pipeline.layers.len() == 0
            &&& pipeline.settled()
            &&& forall|i: int|
                0 <= i < pipeline.layers.len() ==> {
                    &&& (#[trigger] pipeline.layers[i]).wf()
                    &&& pipeline.layers[i].solid.constants.layout == solid::constants_layout()
                    &&& pipeline.layers[i].gradient.constants.layout
                        == gradient::constants_layout()
                }
        },
        pipeline.settled() <==> (pipeline.state matches State::Ready { blit, solid, gradient }
            ==> {
            let msaa = match blit {
                None => None,
                Some(blit) => Some(blit.strategy),
            };
            &&& blit matches Some(blit) ==> blit.format == pipeline.format
            &&& solid.draws_to(pipeline.format, msaa)
            &&& gradient.draws_to(pipeline.format, msaa, pipeline.platform.gamma_correction)
        }),
        pipeline.stalled() <==> pipeline.state is Unused && pipeline.prepare_layer > 0,
{
    assert forall|i: int| 0 <= i < pipeline.layers.len() implies (pipeline::layer_wf(
        #[trigger] pipeline.layers[i],
    ) <==> {
        &&& pipeline.layers[i].wf()
        &&& pipeline.layers[i].solid.constants.layout == solid::constants_layout()
        &&& pipeline.layers[i].gradient.constants.layout == gradient::constants_layout()
    }) by {}
}

/// Compiling creates something if and only if the pipeline does not sample as chosen. If it
/// does, nothing changes. Otherwise all is ready for the strategy, the layers are gone, and
/// the rest stays.
pub proof fn compiling_in_full(
    pre: PipelineModel,
    post: PipelineModel,
    antialiasing: Antialiasing,
    target: Target,
    compiled: bool,
)
    requires
        pre.settled(),
        pre.compiles_to(post, pre.chosen(antialiasing, target), compiled),
    ensures
        ({
            let msaa = antialiasing::chosen(
                antialiasing,
                target.scale_factor,
                pre.platform.macos,
                pre.format_features.flags,
            );
            &&& compiled <==> !samples_with(pre.state, msaa)
            &&& samples_with(post.state, msaa)
            &&& post.state matches State::Ready { blit, solid, gradient } && {
                &&& blit matches Some(blit) ==> blit.format == pre.format
                &&& solid.draws_to(pre.format, msaa)
                &&& gradient.draws_to(pre.format, msaa, pre.platform.gamma_correction)
            }
        }),
        post.format == pre.format,
        post.format_features == pre.format_features,
        post.platform == pre.platform,
        compiled ==> post.layers.len() == 0 && post.prepare_layer == 0,
        !compiled ==> post == pre,
{
}

/// The layer that is prepared, as it was before: a new one if it is created, and otherwise
/// the one that was there.
pub open spec fn base_layer(pre: PipelineModel, prepared: Prepared) -> LayerModel {
    if prepared.created {
        plan::new_layer(solid::constants_layout(), gradient::constants_layout())
    } else {
        pre.layers[prepared.layer as int]
    }
}

/// Preparing goes on with the layer behind those that were prepared in this frame. Only
/// the first layer of a frame compiles, if the pipeline does not sample as chosen. A layer
/// is created if all layers are gone or used up. The other layers and the rest stay.
pub proof fn preparing_in_full(
    pre: PipelineModel,
    post: PipelineModel,
    antialiasing: Antialiasing,
    target: Target,
    meshes: Seq<Mesh>,
    prepared: Prepared,
)
    requires
        pre.wf(),
        pre.prepares_to(post, antialiasing, target, meshes, prepared),
    ensures
        ({
            let msaa = antialiasing::chosen(
                antialiasing,
                target.scale_factor,
                pre.platform.macos,
                pre.format_features.flags,
            );
            let layer = base_layer(pre, prepared);
            let solid_layout = solid::constants_layout();
            let gradient_layout = gradient::constants_layout();
            &&& prepared.layer == pre.prepare_layer
            &&& prepared.compiled <==> pre.prepare_layer == 0 && !samples_with(pre.state, msaa)
            &&& prepared.created <==> prepared.compiled || pre.prepare_layer == pre.layers.len()
            &&& prepared.uploads@ == (if prepared.created {
                layer.creations()
            } else {
                Seq::empty()
            }) + layer.uploads(meshes, solid_layout, gradient_layout)
            &&& post.format == pre.format
            &&& post.format_features == pre.format_features
            &&& post.platform == pre.platform
            &&& post.prepare_layer == pre.prepare_layer + 1
            &&& post.layers.len() == if prepared.compiled {
                1
            } else if prepared.created {
                pre.layers.len() + 1
            } else {
                pre.layers.len()
            }
            &&& post.layers[prepared.layer as int] == layer.prepared(
                meshes,
                solid_layout,
                gradient_layout,
            )
            &&& !prepared.compiled ==> post.state == pre.state && forall|i: int|
                0 <= i < pre.layers.len() && i != prepared.layer ==> #[trigger] post.layers[i]
                    == pre.layers[i]
            &&& prepared.compiled ==> samples_with(post.state, msaa) && (
            post.state matches State::Ready { blit, solid, gradient } && {
                &&& blit matches Some(blit) ==> blit.format == pre.format
                &&& solid.draws_to(pre.format, msaa)
                &&& gradient.draws_to(pre.format, msaa, pre.platform.gamma_correction)
            })
        }),
{
}

/// Whatever else it takes to prepare a layer of a frame, the steps end in three writes for
/// each mesh, and hold no other write: the mesh's own indices, its own vertices, and the
/// words of its own transformation followed by zeros, each behind those of the meshes
/// before it.
pub proof fn frames_write_meshes_with_their_own_data(
    pre: PipelineModel,
    post: PipelineModel,
    antialiasing: Antialiasing,
    target: Target,
    meshes: Seq<Mesh>,
    prepared: Prepared,
    i: int,
)
    requires
        pre.wf(),
        plan::addressable(meshes),
        pre.prepares_to(post, antialiasing, target, meshes, prepared),
        0 <= i < meshes.len(),
    ensures
        ({
            let uploads = prepared.uploads@;
            let first = uploads.len() - 3 * meshes.len();
            let kind = laws_of_layers::kind_of(meshes[i]);
            let before = meshes.take(i);
            let siblings = laws_of_layers::of_kind(before, kind);
            &&& 0 <= first
            &&& forall|k: int| 0 <= k < first ==> !(#[trigger] uploads[k] is Write)
            &&& uploads[first + 3 * i] matches Upload::Write { slot, offset, contents } && {
                &&& slot == Slot::Indices
                &&& offset == 4 * laws_of_layers::total_indices(before)
                &&& contents matches Contents::Indices(number) && number == i
            }
            &&& uploads[first + 3 * i + 1] matches Upload::Write { slot, offset, contents } && {
                &&& slot == Slot::Vertices(kind)
                &&& offset == laws_of_layers::vertex_bytes(kind) * laws_of_layers::total_vertices(
                    siblings,
                )
                &&& contents matches Contents::Vertices(number) && number == i
            }
            &&& uploads[first + 3 * i + 2] matches Upload::Write { slot, offset, contents } && {
                &&& slot == Slot::Uniforms(kind)
                &&& offset == 256 * siblings.len()
                &&& contents matches Contents::Uniforms(uniforms) && {
                    &&& uniforms.transform == laws_of_layers::words_of(meshes[i])
                    &&& forall|k: int| 0 <= k < 48 ==> #[trigger] uniforms.padding@[k] == 0
                }
            }
        }),
{
    let layer = base_layer(pre, prepared);
    let solid_layout = solid::constants_layout();
    let gradient_layout = gradient::constants_layout();
    let created = if prepared.created {
        layer.creations()
    } else {
        Seq::empty()
    };
    let steps = layer.uploads(meshes, solid_layout, gradient_layout);
    let uploads = prepared.uploads@;
    preparing_in_full(pre, post, antialiasing, target, meshes, prepared);
    laws_of_layers::creations_in_full(layer);
    laws_of_layers::there_are_three_writes_per_mesh(layer, meshes, solid_layout, gradient_layout);
    laws_of_layers::meshes_are_written_with_their_own_data(
        layer,
        meshes,
        solid_layout,
        gradient_layout,
        i,
    );
    let first = uploads.len() - 3 * meshes.len();
    let start = steps.len() - 3 * meshes.len();
    assert(first == created.len() + start);
    assert(uploads[first + 3 * i] == steps[start + 3 * i]);
    assert(uploads[first + 3 * i + 1] == steps[start + 3 * i + 1]);
    assert(uploads[first + 3 * i + 2] == steps[start + 3 * i + 2]);
    assert forall|k: int| 0 <= k < first implies !(#[trigger] uploads[k] is Write) by {
        if k < created.len() {
            assert(uploads[k] == created[k]);
        } else {
            assert(uploads[k] == steps[k - created.len()]);
        }
    }
}

/// With multisampling, a layer is drawn to a cleared texture of many samples, which is
/// resolved to another one. Without, it is drawn straight over what the frame holds. What
/// was drawn is kept.
pub proof fn render_passes_in_full()
    ensures
        pipeline::render_pass(true) == (RenderPass {
            label: "iced_wgpu.triangle.render_pass",
            view: Attachment::Multisampled,
            resolve_target: Some(Attachment::Resolved),
            load: LoadOp::ClearTransparent,
            store: StoreOp::Store,
        }),
        pipeline::render_pass(false) == (RenderPass {
            label: "iced_wgpu.triangle.render_pass",
            view: Attachment::Frame,
            resolve_target: None,
            load: LoadOp::Load,
            store: StoreOp::Store,
        }),
{
}

} // verus!
