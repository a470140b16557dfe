//! The pipeline that prepares and renders the layers of a frame.
use crate::antialiasing::{choose_strategy, same_strategy, Antialiasing, ScaleFactor, MSAA};
use crate::command::{Draw, Upload};
use crate::layer::Layer;
use crate::mesh::Mesh;
use crate::plan::LayerModel;
use crate::{antialiasing, gradient, msaa, plan, solid};
use vstd::prelude::*;

verus! {

/// What a device can do with textures of a format.
#[derive(Clone, Copy, Debug, PartialEq, Eq, Structural)]
pub struct TextureFormatFeatures {
    /// The bits of `wgpu::TextureUsages` that are allowed.
    pub allowed_usages: u32,
    /// The bits of `wgpu::TextureFormatFeatureFlags`.
    pub flags: u32,
}

/// What the program was built for.
#[derive(Clone, Copy, Debug, PartialEq, Eq, Structural)]
pub struct Platform {
    /// It runs on macOS.
    pub macos: bool,
    /// It corrects colours for gamma.
    pub gamma_correction: bool,
}

/// A number of physical pixels in each direction.
#[derive(Clone, Copy, Debug, PartialEq, Eq, Structural)]
pub struct Size {
    /// The number of columns.
    pub width: u32,
    /// The number of rows.
    pub height: u32,
}

/// What is drawn to.
#[derive(Clone, Copy, Debug, PartialEq, Eq, Structural)]
pub struct Target {
    /// The scale factor of the screen.
    pub scale_factor: ScaleFactor,
    /// The size of the viewport.
    pub physical_size: Size,
}

/// The state of a [`Pipeline`].
#[derive(Debug, PartialEq, Eq)]
pub enum State {
    /// Nothing has been prepared yet.
    Unused,
    /// There is all it takes to draw.
    Ready {
        /// The blit, with multisampling.
        blit: Option<msaa::Blit>,
        /// What draws meshes of solid colours.
        solid: solid::Pipeline,
        /// What draws meshes of gradients.
        gradient: gradient::Pipeline,
    },
}

impl State {
    /// The strategy that the state is ready to draw with.
    pub open spec fn strategy(&self) -> Option<Option<MSAA>> {
        match self {
            State::Unused => None,
            State::Ready { blit, .. } => Some(
                match blit {
                    None => None,
                    Some(blit) => Some(blit.strategy),
                },
            ),
        }
    }

    /// The blit and both pipelines draw to textures of the given format with the
    /// given strategy.
    pub open spec fn ready_for(
        &self,
        format: wgpu::TextureFormat,
        msaa: Option<MSAA>,
        gamma_correction: bool,
    ) -> bool {
        match self {
            State::Unused => false,
            State::Ready { blit, solid, gradient } => {
                &&& blit == match msaa {
                    None => None,
                    Some(strategy) => Some(msaa::Blit { format, strategy }),
                }
                &&& solid.draws_to(format, msaa)
                &&& gradient.draws_to(format, msaa, gamma_correction)
            },
        }
    }

    /// There is all it takes to draw, and all of it samples alike and draws to the given
    /// format: with one sample per pixel if there is no blit, and with as many as the
    /// blit otherwise.
    pub open spec fn samples_alike(&self, format: wgpu::TextureFormat) -> bool {
        match self {
            State::Unused => false,
            State::Ready { blit, solid, gradient } => {
                let count = match blit {
                    None => 1,
                    Some(blit) => blit.strategy.samples(),
                };
                &&& solid.pipeline.multisample.count == count
                &&& gradient.pipeline.multisample.count == count
                &&& solid.pipeline.target.format == format
                &&& gradient.pipeline.target.format == format
                &&& blit matches Some(blit) ==> blit.format == format
            },
        }
    }
}

/// Prepares and renders layers of meshes.
#[derive(Debug, PartialEq, Eq)]
pub struct Pipeline {
    format: wgpu::TextureFormat,
    format_features: TextureFormatFeatures,
    platform: Platform,
    layers: Vec<Layer>,
    prepare_layer: usize,
    state: State,
}

/// The contents of a [`Pipeline`].
#[verifier::ext_equal]
pub struct PipelineModel {
    /// The format of the textures that are drawn to.
    pub format: wgpu::TextureFormat,
    /// What the device can do with them.
    pub format_features: TextureFormatFeatures,
    /// What the program was built for.
    pub platform: Platform,
    /// The layers.
    pub layers: Seq<LayerModel>,
    /// The number of layers that were prepared in this frame.
    pub prepare_layer: nat,
    /// The state.
    pub state: State,
}

/// What the device has to do to prepare a layer.
#[derive(Debug, PartialEq, Eq)]
pub struct Prepared {
    /// First, create the blit and both pipelines anew, and drop all layers.
    pub compiled: bool,
    /// The number of the layer.
    pub layer: usize,
    /// The layer is a new one.
    pub created: bool,
    /// Then, take these steps.
    pub uploads: Vec<Upload>,
}

/// A texture that is drawn to.
#[derive(Clone, Copy, Debug, PartialEq, Eq, Structural)]
pub enum Attachment {
    /// The frame.
    Frame,
    /// The multisampled texture of the blit.
    Multisampled,
    /// The texture of the blit that takes one value from the samples of each pixel.
    Resolved,
}

/// What is done to a texture before it is drawn to.
#[derive(Clone, Copy, Debug, PartialEq, Eq, Structural)]
pub enum LoadOp {
    /// It is filled with transparent black.
    ClearTransparent,
    /// It is kept.
    Load,
}

/// What is done to a texture after it was drawn to.
#[derive(Clone, Copy, Debug, PartialEq, Eq, Structural)]
pub enum StoreOp {
    /// It is kept.
    Store,
    /// It is discarded.
    Discard,
}

/// A render pass with one colour attachment, without depth, stencil or queries.
#[derive(Clone, Copy, Debug, PartialEq, Eq)]
pub struct RenderPass {
    /// Its debug label.
    pub label: &'static str,
    /// What is drawn to.
    pub view: Attachment,
    /// Where the samples are resolved to.
    pub resolve_target: Option<Attachment>,
    /// What happens to the attachment before.
    pub load: LoadOp,
    /// What happens to the attachment after.
    pub store: StoreOp,
}

/// What the device has to do to render a layer.
#[derive(Debug, PartialEq, Eq)]
pub struct Rendering {
    /// First, get the textures of the blit, in this size.
    pub targets: Option<Size>,
    /// Begin this render pass.
    pub pass: RenderPass,
    /// Take these steps in it.
    pub commands: Vec<Draw>,
    /// After the pass, draw the blit to the frame.
    pub draw_blit: bool,
}

/// The render pass: to the textures of the blit with multisampling, and straight to
/// the frame without.
pub open spec fn render_pass(multisampled: bool) -> RenderPass {
    if multisampled {
        RenderPass {
            label: "iced_wgpu.triangle.render_pass",
            view: Attachment::Multisampled,
            resolve_target: Some(Attachment::Resolved),
            load: LoadOp::ClearTransparent,
            store: StoreOp::Store,
        }
    } else {
        RenderPass {
            label: "iced_wgpu.triangle.render_pass",
            view: Attachment::Frame,
            resolve_target: None,
            load: LoadOp::Load,
            store: StoreOp::Store,
        }
    }
}

impl PipelineModel {
    /// The strategy for the given wish and target.
    pub open spec fn chosen(self, antialiasing: Antialiasing, target: Target) -> Option<MSAA> {
        antialiasing::chosen(
            antialiasing,
            target.scale_factor,
            self.platform.macos,
            self.format_features.flags,
        )
    }

    /// The pipeline is unused, or ready as compiling leaves it: what is ready draws to
    /// the pipeline's format, all with the same strategy.
    pub open spec fn settled(self) -> bool {
        self.state.strategy() matches Some(msaa) ==> self.state.ready_for(
            self.format,
            msaa,
            self.platform.gamma_correction,
        )
    }

    /// The pipeline is unused, though layers count as prepared in this frame. None of the
    /// public functions leads here.
    pub open spec fn stalled(self) -> bool {
        self.state is Unused && 0 < self.prepare_layer
    }

    /// The pipeline keeps its word: what is ready draws to the right format, there is
    /// a layer for each one prepared in this frame, and each layer is sound and made
    /// for the pipelines that draw it. Without anything ready there is no layer.
    pub open spec fn wf(self) -> bool {
        &&& self.prepare_layer <= self.layers.len()
        &&& self.state is Unused ==> self.layers.len() == 0
        &&& self.settled()
        &&& forall|i: int| 0 <= i < self.layers.len() ==> layer_wf(#[trigger] self.layers[i])
    }

    /// How the pipeline changes when it is compiled for a strategy.
    ///
    /// If it is ready for the strategy, nothing changes. Otherwise it is made ready,
    /// and starts over without layers.
    pub open spec fn compiles_to(
        self,
        post: PipelineModel,
        msaa: Option<MSAA>,
        compiled: bool,
    ) -> bool {
        &&& compiled == (self.state.strategy() != Some(msaa))
        &&& if compiled {
            &&& post.state.ready_for(self.format, msaa, self.platform.gamma_correction)
            &&& post == (PipelineModel {
                layers: Seq::empty(),
                prepare_layer: 0,
                state: post.state,
                ..self
            })
        } else {
            post == self
        }
    }

    /// How a pipeline that is ready changes when a layer is prepared, and what there is
    /// to do: the layer is the one behind those that were prepared in the frame before
    /// it, a new one if there is none.
    pub open spec fn continues_to(
        self,
        post: PipelineModel,
        meshes: Seq<Mesh>,
        created: bool,
        uploads: Seq<Upload>,
    ) -> bool {
        let index = self.prepare_layer as int;
        let layer = if created {
            empty_layer()
        } else {
            self.layers[index]
        };
        &&& created == (self.layers.len() <= index)
        &&& uploads == (if created {
            layer.creations()
        } else {
            Seq::empty()
        }) + layer.uploads(meshes, solid::constants_layout(), gradient::constants_layout())
        &&& post == (PipelineModel {
            layers: if created {
                self.layers.push(prepared_layer(layer, meshes))
            } else {
                self.layers.update(index, prepared_layer(layer, meshes))
            },
            prepare_layer: (index + 1) as nat,
            ..self
        })
    }

    /// How the pipeline changes when a layer is prepared, and what there is to do.
    ///
    /// The first layer of a frame decides on the strategy. The layer is the one
    /// behind those that were prepared in the frame before it, a new one if there is
    /// none.
    pub open spec fn prepares_to(
        self,
        post: PipelineModel,
        antialiasing: Antialiasing,
        target: Target,
        meshes: Seq<Mesh>,
        prepared: Prepared,
    ) -> bool {
        let msaa = self.chosen(antialiasing, target);
        let layers = if prepared.compiled {
            Seq::<LayerModel>::empty()
        } else {
            self.layers
        };
        let layer = if prepared.created {
            empty_layer()
        } else {
            layers[prepared.layer as int]
        };
        &&& prepared.compiled == (self.prepare_layer == 0 && self.state.strategy() != Some(msaa))
        &&& prepared.layer == self.prepare_layer
        &&& prepared.created == (layers.len() <= prepared.layer)
        &&& prepared.uploads@ == (if prepared.created {
            layer.creations()
        } else {
            Seq::empty()
        }) + layer.uploads(meshes, solid::constants_layout(), gradient::constants_layout())
        &&& post.format == self.format
        &&& post.format_features == self.format_features
        &&& post.platform == self.platform
        &&& post.prepare_layer == self.prepare_layer + 1
        &&& post.layers == (if prepared.created {
            layers.push(prepared_layer(layer, meshes))
        } else {
            layers.update(prepared.layer as int, prepared_layer(layer, meshes))
        })
        &&& if prepared.compiled {
            post.state.ready_for(self.format, msaa, self.platform.gamma_correction)
        } else {
            post.state == self.state
        }
    }
}

/// The layer is sound, and its bind groups have the layouts that both pipelines use.
pub open spec fn layer_wf(layer: LayerModel) -> bool {
    &&& layer.wf()
    &&& layer.solid.constants.layout == solid::constants_layout()
    &&& layer.gradient.constants.layout == gradient::constants_layout()
}

/// A layer of the pipeline with which nothing has been done yet.
pub open spec fn empty_layer() -> LayerModel {
    plan::new_layer(solid::constants_layout(), gradient::constants_layout())
}

/// A layer of the pipeline after it was prepared for the meshes.
pub open spec fn prepared_layer(layer: LayerModel, meshes: Seq<Mesh>) -> LayerModel {
    layer.prepared(meshes, solid::constants_layout(), gradient::constants_layout())
}

/// A sound layer stays sound when it is prepared.
proof fn lemma_prepared_layer(layer: LayerModel, meshes: Seq<Mesh>)
    requires
        layer_wf(layer),
    ensures
        layer_wf(prepared_layer(layer, meshes)),
{
    reveal(LayerModel::prepared);
}

/// A sound pipeline stays sound when a layer is prepared.
proof fn lemma_prepares_wf(
    pre: PipelineModel,
    post: PipelineModel,
    antialiasing: Antialiasing,
    target: Target,
    meshes: Seq<Mesh>,
    prepared: Prepared,
)
    requires
        pre.wf(),
        pre.prepares_to(post, antialiasing, target, meshes, prepared),
        post.state is Ready,
    ensures
        post.wf(),
{
    assert forall|i: int| 0 <= i < post.layers.len() implies layer_wf(
        #[trigger] post.layers[i],
    ) by {
        if i == prepared.layer {
            reveal(plan::new_layer);
            lemma_prepared_layer(
                if prepared.created {
                    empty_layer()
                } else {
                    pre.layers[i]
                },
                meshes,
            );
        }
    }
}

impl View for Pipeline {
    type V = PipelineModel;

    closed spec fn view(&self) -> PipelineModel {
        PipelineModel {
            format: self.format,
            format_features: self.format_features,
            platform: self.platform,
            layers: self.layers@.map_values(|layer: Layer| layer@),
            prepare_layer: self.prepare_layer as nat,
            state: self.state,
        }
    }
}

impl Pipeline {
    /// Describes a pipeline that draws to textures of the given format, on a device
    /// that can do with them what the features say.
    pub fn new(
        format: wgpu::TextureFormat,
        format_features: TextureFormatFeatures,
        platform: Platform,
    ) -> (pipeline: Pipeline)
        ensures
            pipeline@ == (PipelineModel {
                format,
                format_features,
                platform,
                layers: Seq::empty(),
                prepare_layer: 0,
                state: State::Unused,
            }),
            pipeline@.wf(),
    {
        let pipeline = Pipeline {
            format,
            format_features,
            platform,
            layers: Vec::new(),
            prepare_layer: 0,
            state: State::Unused,
        };

        proof {
            assert(pipeline@.layers =~= Seq::empty());
        }

        pipeline
    }

    /// Returns the state.
    pub fn state(&self) -> (state: &State)
        ensures
            *state == self@.state,
    {
        &self.state
    }

    /// Tells the pipeline that the frame is over.
    pub fn end_frame(&mut self)
        ensures
            final(self)@ == (PipelineModel { prepare_layer: 0, ..old(self)@ }),
            old(self)@.wf() ==> final(self)@.wf(),
    {
        self.prepare_layer = 0;
    }

    /// Makes the pipeline ready to draw with the strategy that the wish and the target
    /// come to. Tells whether it was not.
    pub fn compile(&mut self, antialiasing: Antialiasing, target: &Target) -> (compiled: bool)
        requires
            old(self)@.settled(),
        ensures
            old(self)@.compiles_to(
                final(self)@,
                old(self)@.chosen(antialiasing, *target),
                compiled,
            ),
            final(self)@.state.ready_for(
                old(self)@.format,
                old(self)@.chosen(antialiasing, *target),
                old(self)@.platform.gamma_correction,
            ),
            final(self)@.state.samples_alike(old(self)@.format),
            final(self)@.settled(),
            old(self)@.wf() ==> final(self)@.wf(),
    {
        let msaa = choose_strategy(
            antialiasing,
            target.scale_factor,
            self.platform.macos,
            self.format_features.flags,
        );

        let up_to_date = match &self.state {
            State::Unused => false,
            State::Ready { blit, .. } => {
                let strategy: Option<MSAA> = match blit {
                    None => None,
                    Some(blit) => Some(blit.strategy()),
                };
                same_strategy(strategy, msaa)
            },
        };

        if up_to_date {
            return false;
        }

        self.state = State::Ready {
            blit: match msaa {
                None => None,
                Some(msaa) => Some(msaa::Blit::new(self.format, msaa)),
            },
            solid: solid::Pipeline::new(self.format, msaa),
            gradient: gradient::Pipeline::new(
                self.format,
                msaa,
                self.platform.gamma_correction,
            ),
        };
        self.layers.clear();
        self.prepare_layer = 0;

        proof {
            assert(self@.layers =~= Seq::empty());
        }

        true
    }

    /// Prepares the layer behind those that were prepared in this frame, a new one if
    /// there is none. Tells whether it is new, and what there is to do. Does nothing if
    /// the pipeline is unused.
    fn prepare_next(&mut self, meshes: &[Mesh]) -> (result: Option<(bool, Vec<Upload>)>)
        requires
            old(self)@.state is Ready ==> old(self)@.wf() && plan::addressable(meshes@),
        ensures
            result is Some <==> old(self)@.state is Ready,
            result is None ==> final(self)@ == old(self)@,
            result matches Some((created, uploads)) ==> old(self)@.continues_to(
                final(self)@,
                meshes@,
                created,
                uploads@,
            ),
    {
        let State::Ready { solid, gradient, .. } = &self.state else {
            return None;
        };

        let index = self.prepare_layer;
        let created = self.layers.len() <= index;
        let mut uploads: Vec<Upload> = Vec::new();

        if created {
            let layer = Layer::new(solid, gradient);
            uploads = layer.creations();
            self.layers.push(layer);
        }

        let ghost layers = self.layers@;

        proof {
            assert(!created ==> layer_wf(old(self)@.layers[index as int]));
            assert(layers[index as int]@.wf());
        }

        let layer = &mut self.layers[index];
        let mut writes = layer.prepare(solid, gradient, meshes);
        uploads.append(&mut writes);

        assert(index < self.layers.len());
        self.prepare_layer = index + 1;

        proof {
            let layer = layers[index as int]@;
            assert(self@.layers =~= if created {
                old(self)@.layers.push(prepared_layer(layer, meshes@))
            } else {
                old(self)@.layers.update(index as int, prepared_layer(layer, meshes@))
            });
        }

        Some((created, uploads))
    }

    /// Prepares the next layer of the frame for the meshes. Does nothing if the pipeline
    /// is unused and the layer is not the first of the frame.
    pub fn prepare(
        &mut self,
        antialiasing: Antialiasing,
        target: &Target,
        meshes: &[Mesh],
    ) -> (result: Option<Prepared>)
        requires
            old(self)@.stalled() || (old(self)@.wf() && plan::addressable(meshes@)),
        ensures
            result is None <==> old(self)@.stalled(),
            old(self)@.stalled() ==> final(self)@ == old(self)@,
            result matches Some(prepared) ==> old(self)@.prepares_to(
                final(self)@,
                antialiasing,
                *target,
                meshes@,
                prepared,
            ),
            old(self)@.wf() ==> final(self)@.wf(),
    {
        let mut compiled = false;

        if self.prepare_layer == 0 {
            compiled = self.compile(antialiasing, target);
        }

        let layer = self.prepare_layer;

        match self.prepare_next(meshes) {
            None => None,
            Some((created, uploads)) => {
                let prepared = Prepared { compiled, layer, created, uploads };

                proof {
                    lemma_prepares_wf(old(self)@, self@, antialiasing, *target, meshes@, prepared);
                }

                Some(prepared)
            },
        }
    }

    /// Tells whether there is a layer with the given number, and it holds something
    /// for every mesh with a visible pixel.
    pub fn can_render(&self, layer: usize, meshes: &[Mesh]) -> (result: bool)
        ensures
            result == (layer < self@.layers.len() && self@.layers[layer as int].renderable(
                meshes@,
            )),
    {
        layer < self.layers.len() && self.layers[layer].can_render(meshes)
    }

    /// Renders the meshes from the layer with the given number.
    pub fn render(&self, target: &Target, layer: usize, meshes: &[Mesh]) -> (result: Option<
        Rendering,
    >)
        requires
            self@.state is Ready ==> {
                &&& layer < self@.layers.len()
                &&& self@.layers[layer as int].renderable(meshes@)
            },
        ensures
            result is Some <==> self@.state is Ready,
            result matches Some(rendering) ==> {
                let multisampled = self@.state->blit is Some;
                &&& rendering.targets == if multisampled {
                    Some(target.physical_size)
                } else {
                    None
                }
                &&& rendering.pass == render_pass(multisampled)
                &&& rendering.commands@ == plan::draws(
                    self@.layers[layer as int],
                    meshes@,
                    meshes@.len() as int,
                )
                &&& rendering.draw_blit == multisampled
            },
    {
        let State::Ready { blit, .. } = &self.state else {
            return None;
        };

        let (view, resolve_target, load, targets) = if blit.is_some() {
            (
                Attachment::Multisampled,
                Some(Attachment::Resolved),
                LoadOp::ClearTransparent,
                Some(target.physical_size),
            )
        } else {
            (Attachment::Frame, None, LoadOp::Load, None)
        };

        let pass = RenderPass {
            label: "iced_wgpu.triangle.render_pass",
            view,
            resolve_target,
            load,
            store: StoreOp::Store,
        };

        let commands = self.layers[layer].render(meshes);

        Some(Rendering { targets, pass, commands, draw_blit: blit.is_some() })
    }
}

} // verus!
