//! What is drawn in one go.
use crate::buffer::{Buffer, BufferModel};
use crate::command::{Contents, Draw, Slot, Upload};
use crate::mesh::{attribute_count_of, Kind, Mesh};
use crate::plan::{LayerModel, INDEX_SIZE};
use crate::resource::{BufferUsages, IndexFormat};
use crate::uniforms::{Uniforms, UNIFORMS_SIZE};
use crate::{gradient, mesh, plan, solid, INITIAL_INDEX_COUNT};
use vstd::prelude::*;

verus! {

/// The buffers of a layer.
#[derive(Debug, PartialEq, Eq)]
pub struct Layer {
    /// The indices of all meshes.
    pub index_buffer: Buffer,
    /// The number of indices of each mesh.
    pub index_strides: Vec<u32>,
    /// What the meshes of solid colours need.
    pub solid: solid::Layer,
    /// What the meshes of gradients need.
    pub gradient: gradient::Layer,
}

impl View for Layer {
    type V = LayerModel;

    open spec fn view(&self) -> LayerModel {
        LayerModel {
            index_buffer: self.index_buffer@,
            index_strides: self.index_strides@,
            solid: self.solid@,
            gradient: self.gradient@,
        }
    }
}

impl Layer {
    /// Describes a layer with which nothing has been done yet.
    pub fn new(solid: &solid::Pipeline, gradient: &gradient::Pipeline) -> (layer: Self)
        ensures
            layer@ == plan::new_layer(solid.constants_layout, gradient.constants_layout),
            layer@.wf(),
    {
        proof {
            reveal(plan::new_layer);
        }

        Layer {
            index_buffer: Buffer::new(
                "iced_wgpu.triangle.index_buffer",
                INDEX_SIZE,
                INITIAL_INDEX_COUNT,
                BufferUsages { index: true, vertex: false, uniform: false, copy_dst: true },
            ),
            index_strides: Vec::new(),
            solid: solid::Layer::new(&solid.constants_layout),
            gradient: gradient::Layer::new(&gradient.constants_layout),
        }
    }

    /// Lists the steps that create what the layer starts with.
    pub fn creations(&self) -> (uploads: Vec<Upload>)
        ensures
            uploads@ == self@.creations(),
    {
        let uploads = vec![
            Upload::CreateBuffer { slot: Slot::Indices, buffer: self.index_buffer.raw },
            Upload::CreateBuffer {
                slot: Slot::Vertices(Kind::Solid),
                buffer: self.solid.vertices.raw,
            },
            Upload::CreateBuffer {
                slot: Slot::Uniforms(Kind::Solid),
                buffer: self.solid.uniforms.raw,
            },
            Upload::CreateBindGroup { kind: Kind::Solid, group: self.solid.constants },
            Upload::CreateBuffer {
                slot: Slot::Vertices(Kind::Gradient),
                buffer: self.gradient.vertices.raw,
            },
            Upload::CreateBuffer {
                slot: Slot::Uniforms(Kind::Gradient),
                buffer: self.gradient.uniforms.raw,
            },
            Upload::CreateBindGroup { kind: Kind::Gradient, group: self.gradient.constants },
        ];

        proof {
            reveal(LayerModel::creations);
            assert(uploads@ =~= self@.creations());
        }

        uploads
    }

    /// Makes room for what the meshes need. Appends the steps for the device to
    /// `uploads`.
    #[verifier::rlimit(30)]
    fn resize(
        &mut self,
        solid: &solid::Pipeline,
        gradient: &gradient::Pipeline,
        meshes: &[Mesh],
        uploads: &mut Vec<Upload>,
    )
        requires
            old(self)@.wf(),
            plan::addressable(meshes@),
        ensures
            final(self)@ == old(self)@.resized(
                meshes@,
                solid.constants_layout,
                gradient.constants_layout,
            ),
            final(uploads)@ == old(uploads)@ + old(self)@.growths(
                meshes@,
                solid.constants_layout,
                gradient.constants_layout,
            ),
    {
        proof {
            plan::lemma_countable(meshes@);
        }

        // Count the total amount of vertices & indices we need to handle
        let count = attribute_count_of(meshes);

        // Then we ensure the current attribute buffers are big enough, resizing if necessary.
        // Apart from the constants, nothing depends on whether a buffer was replaced: the data
        // is written every frame, since nothing keeps track of what changed in a mesh.
        let _ = grow(&mut self.index_buffer, Slot::Indices, count.indices, uploads);
        let _ = grow(
            &mut self.solid.vertices,
            Slot::Vertices(Kind::Solid),
            count.solid_vertices,
            uploads,
        );
        let _ = grow(
            &mut self.gradient.vertices,
            Slot::Vertices(Kind::Gradient),
            count.gradient_vertices,
            uploads,
        );

        let ghost before_solid = uploads@;

        if grow(&mut self.solid.uniforms, Slot::Uniforms(Kind::Solid), count.solids, uploads) {
            self.solid.constants = solid::Layer::bind_group(
                &self.solid.uniforms.raw,
                &solid.constants_layout,
            );
            uploads.push(
                Upload::CreateBindGroup { kind: Kind::Solid, group: self.solid.constants },
            );
        }

        let ghost before_gradient = uploads@;

        proof {
            assert(before_gradient =~= before_solid + plan::constants_growth(
                Kind::Solid,
                old(self)@.solid.uniforms,
                count.solids as nat,
                solid.constants_layout,
            ));
        }

        if grow(
            &mut self.gradient.uniforms,
            Slot::Uniforms(Kind::Gradient),
            count.gradients,
            uploads,
        ) {
            self.gradient.constants = gradient::Layer::bind_group(
                &self.gradient.uniforms.raw,
                &gradient.constants_layout,
            );
            uploads.push(
                Upload::CreateBindGroup { kind: Kind::Gradient, group: self.gradient.constants },
            );
        }

        proof {
            assert(self@ =~= old(self)@.resized(
                meshes@,
                solid.constants_layout,
                gradient.constants_layout,
            ));
            let gradient_growth = plan::constants_growth(
                Kind::Gradient,
                old(self)@.gradient.uniforms,
                count.gradients as nat,
                gradient.constants_layout,
            );
            assert(uploads@ =~= before_gradient + gradient_growth);
            plan::lemma_concatenation(
                old(uploads)@,
                plan::growth(Slot::Indices, old(self)@.index_buffer, count.indices as nat),
                plan::growth(
                    Slot::Vertices(Kind::Solid),
                    old(self)@.solid.vertices,
                    count.solid_vertices as nat,
                ),
                plan::growth(
                    Slot::Vertices(Kind::Gradient),
                    old(self)@.gradient.vertices,
                    count.gradient_vertices as nat,
                ),
                plan::constants_growth(
                    Kind::Solid,
                    old(self)@.solid.uniforms,
                    count.solids as nat,
                    solid.constants_layout,
                ),
                gradient_growth,
            );
        }
    }

    /// Notes where in the buffers the data of each mesh goes. Appends the steps that
    /// write it to `uploads`.
    #[verifier::rlimit(30)]
    fn fill(&mut self, meshes: &[Mesh], uploads: &mut Vec<Upload>)
        requires
            old(self)@.wf(),
            old(self)@.has_room(meshes@),
            plan::addressable(meshes@),
        ensures
            final(self)@ == old(self)@.filled(meshes@, meshes@.len() as int),
            final(uploads)@ == old(uploads)@ + plan::writes(meshes@, meshes@.len() as int),
    {
        let ghost base = self@;
        let ghost growths = uploads@;

        self.index_strides.clear();
        self.index_buffer.clear();
        self.solid.vertices.clear();
        self.solid.uniforms.clear();
        self.gradient.vertices.clear();
        self.gradient.uniforms.clear();

        let mut solid_vertex_offset: usize = 0;
        let mut solid_uniform_offset: usize = 0;
        let mut gradient_vertex_offset: usize = 0;
        let mut gradient_uniform_offset: usize = 0;
        let mut index_offset: usize = 0;

        let mut i: usize = 0;

        proof {
            assert(self@ =~= base.filled(meshes@, 0));
            assert(uploads@ =~= growths + plan::writes(meshes@, 0));
            assert(plan::vertex_size(Kind::Solid) * 0 == 0 && plan::vertex_size(Kind::Gradient) * 0 == 0);
        }

        while i < meshes.len()
            invariant
                i <= meshes@.len(),
                plan::addressable(meshes@),
                base.wf(),
                base.has_room(meshes@),
                self@ == base.filled(meshes@, i as int),
                uploads@ == growths + plan::writes(meshes@, i as int),
                index_offset == plan::index_offset(meshes@, i as int),
                solid_vertex_offset == plan::vertex_offset(meshes@, Kind::Solid, i as int),
                solid_uniform_offset == plan::uniform_offset(meshes@, Kind::Solid, i as int),
                gradient_vertex_offset == plan::vertex_offset(meshes@, Kind::Gradient, i as int),
                gradient_uniform_offset == plan::uniform_offset(meshes@, Kind::Gradient, i as int),
            decreases meshes@.len() - i,
        {
            let mesh = meshes[i];
            let buffers = mesh.buffers();
            let uniforms = Uniforms::new(mesh.transformation());

            let ghost written = uploads@;

            proof {
                plan::lemma_offsets(meshes@, Kind::Solid, i as int);
                plan::lemma_offsets(meshes@, Kind::Gradient, i as int);
                plan::lemma_filled(meshes@, i as int);
            }

            uploads.push(
                Upload::Write {
                    slot: Slot::Indices,
                    offset: index_offset as u64,
                    contents: Contents::Indices(i),
                },
            );
            index_offset = index_offset + self.index_buffer.write(index_offset, buffers.indices);

            self.index_strides.push(truncated(buffers.indices as u64));

            match mesh.kind() {
                Kind::Solid => {
                    uploads.push(
                        Upload::Write {
                            slot: Slot::Vertices(Kind::Solid),
                            offset: solid_vertex_offset as u64,
                            contents: Contents::Vertices(i),
                        },
                    );
                    solid_vertex_offset = solid_vertex_offset + self.solid.vertices.write(
                        solid_vertex_offset,
                        buffers.vertices,
                    );

                    uploads.push(
                        Upload::Write {
                            slot: Slot::Uniforms(Kind::Solid),
                            offset: solid_uniform_offset as u64,
                            contents: Contents::Uniforms(uniforms),
                        },
                    );
                    solid_uniform_offset = solid_uniform_offset + self.solid.uniforms.write(
                        solid_uniform_offset,
                        1,
                    );
                },
                Kind::Gradient => {
                    uploads.push(
                        Upload::Write {
                            slot: Slot::Vertices(Kind::Gradient),
                            offset: gradient_vertex_offset as u64,
                            contents: Contents::Vertices(i),
                        },
                    );
                    gradient_vertex_offset = gradient_vertex_offset + self.gradient.vertices.write(
                        gradient_vertex_offset,
                        buffers.vertices,
                    );

                    uploads.push(
                        Upload::Write {
                            slot: Slot::Uniforms(Kind::Gradient),
                            offset: gradient_uniform_offset as u64,
                            contents: Contents::Uniforms(uniforms),
                        },
                    );
                    gradient_uniform_offset = gradient_uniform_offset + self.gradient.uniforms.write(
                        gradient_uniform_offset,
                        1,
                    );
                },
            }

            proof {
                assert(uploads@ =~= written + plan::mesh_writes(meshes@, i as int));
                assert(uploads@ =~= growths + plan::writes(meshes@, i + 1));
                assert(self@ =~= base.filled(meshes@, i + 1));
            }

            i = i + 1;
        }
    }

    /// Prepares the layer for the meshes. Returns the steps for the device.
    pub fn prepare(
        &mut self,
        solid: &solid::Pipeline,
        gradient: &gradient::Pipeline,
        meshes: &[Mesh],
    ) -> (uploads: Vec<Upload>)
        requires
            old(self)@.wf(),
            plan::addressable(meshes@),
        ensures
            final(self)@ == old(self)@.prepared(
                meshes@,
                solid.constants_layout,
                gradient.constants_layout,
            ),
            final(self)@.wf(),
            uploads@ == old(self)@.uploads(
                meshes@,
                solid.constants_layout,
                gradient.constants_layout,
            ),
    {
        let mut uploads: Vec<Upload> = Vec::new();

        proof {
            plan::lemma_resized(
                self@,
                meshes@,
                solid.constants_layout,
                gradient.constants_layout,
            );
        }

        self.resize(solid, gradient, meshes, &mut uploads);
        self.fill(meshes, &mut uploads);

        proof {
            reveal(LayerModel::prepared);
            reveal(LayerModel::uploads);
            assert(uploads@ =~= old(self)@.uploads(
                meshes@,
                solid.constants_layout,
                gradient.constants_layout,
            ));
        }

        uploads
    }

    /// Tells whether the layer holds something for every mesh with a visible pixel.
    pub fn can_render(&self, meshes: &[Mesh]) -> (result: bool)
        ensures
            result == self@.renderable(meshes@),
    {
        let mut num_solids: usize = 0;
        let mut num_gradients: usize = 0;
        let mut index: usize = 0;

        while index < meshes.len()
            invariant
                index <= meshes@.len(),
                num_solids == mesh::visible_rank(meshes@, Kind::Solid, index as int),
                num_gradients == mesh::visible_rank(meshes@, Kind::Gradient, index as int),
                self@.renderable_until(meshes@, index as int),
            decreases meshes@.len() - index,
        {
            let mesh = meshes[index];
            let clip_bounds = mesh.clip_bounds();

            proof {
                mesh::lemma_rank_bounds(meshes@, Kind::Solid, index as int);
                mesh::lemma_rank_bounds(meshes@, Kind::Gradient, index as int);
            }

            if clip_bounds.width >= 1 && clip_bounds.height >= 1 {
                assert(meshes@[index as int].visible());

                if index >= self.index_strides.len() || index >= self.index_buffer.offsets.len() {
                    return false;
                }
                match mesh.kind() {
                    Kind::Solid => {
                        if num_solids >= self.solid.vertices.offsets.len() {
                            return false;
                        }
                        num_solids = num_solids + 1;
                    },
                    Kind::Gradient => {
                        if num_gradients >= self.gradient.vertices.offsets.len() {
                            return false;
                        }
                        num_gradients = num_gradients + 1;
                    },
                }
            }
            index = index + 1;
        }

        true
    }

    /// Lists the steps that draw the meshes.
    pub fn render(&self, meshes: &[Mesh]) -> (commands: Vec<Draw>)
        requires
            self@.renderable(meshes@),
        ensures
            commands@ == plan::draws(self@, meshes@, meshes@.len() as int),
    {
        let mut commands: Vec<Draw> = Vec::new();
        let mut num_solids: usize = 0;
        let mut num_gradients: usize = 0;
        let mut last_kind: Option<Kind> = None;
        let mut index: usize = 0;

        while index < meshes.len()
            invariant
                index <= meshes@.len(),
                self@.renderable(meshes@),
                num_solids == mesh::visible_rank(meshes@, Kind::Solid, index as int),
                num_gradients == mesh::visible_rank(meshes@, Kind::Gradient, index as int),
                last_kind == mesh::last_visible(meshes@, index as int),
                commands@ == plan::draws(self@, meshes@, index as int),
            decreases meshes@.len() - index,
        {
            let mesh = meshes[index];
            let clip_bounds = mesh.clip_bounds();

            let ghost before = commands@;

            proof {
                mesh::lemma_rank_bounds(meshes@, Kind::Solid, index as int);
                mesh::lemma_rank_bounds(meshes@, Kind::Gradient, index as int);
            }

            if clip_bounds.width >= 1 && clip_bounds.height >= 1 {
                assert(meshes@[index as int].visible());

                commands.push(Draw::SetScissorRect(clip_bounds));

                match mesh.kind() {
                    Kind::Solid => {
                        if !is_kind(last_kind, Kind::Solid) {
                            commands.push(Draw::SetPipeline(Kind::Solid));
                            last_kind = Some(Kind::Solid);
                        }
                        commands.push(
                            Draw::SetBindGroup {
                                index: 0,
                                kind: Kind::Solid,
                                dynamic_offset: dynamic_offset(num_solids),
                            },
                        );
                        commands.push(
                            Draw::SetVertexBuffer {
                                index: 0,
                                slot: Slot::Vertices(Kind::Solid),
                                offset: self.solid.vertices.slice_from_index(num_solids),
                            },
                        );
                        num_solids = num_solids + 1;
                    },
                    Kind::Gradient => {
                        if !is_kind(last_kind, Kind::Gradient) {
                            commands.push(Draw::SetPipeline(Kind::Gradient));
                            last_kind = Some(Kind::Gradient);
                        }
                        commands.push(
                            Draw::SetBindGroup {
                                index: 0,
                                kind: Kind::Gradient,
                                dynamic_offset: dynamic_offset(num_gradients),
                            },
                        );
                        commands.push(
                            Draw::SetVertexBuffer {
                                index: 0,
                                slot: Slot::Vertices(Kind::Gradient),
                                offset: self.gradient.vertices.slice_from_index(num_gradients),
                            },
                        );
                        num_gradients = num_gradients + 1;
                    },
                }

                commands.push(
                    Draw::SetIndexBuffer {
                        slot: Slot::Indices,
                        offset: self.index_buffer.slice_from_index(index),
                        format: IndexFormat::Uint32,
                    },
                );
                commands.push(
                    Draw::DrawIndexed {
                        first_index: 0,
                        end_index: self.index_strides[index],
                        base_vertex: 0,
                        first_instance: 0,
                        end_instance: 1,
                    },
                );
            }

            proof {
                assert(commands@ =~= before + plan::mesh_draws(self@, meshes@, index as int));
            }

            index = index + 1;
        }

        commands
    }
}

/// Makes room in a buffer for `count` elements. Appends the step for the device to
/// `uploads` and tells whether there is one.
fn grow(buffer: &mut Buffer, slot: Slot, count: usize, uploads: &mut Vec<Upload>) -> (grown: bool)
    requires
        old(buffer).stride * count <= u64::MAX,
    ensures
        grown == !old(buffer)@.holds(count as nat),
        final(buffer)@ == (BufferModel { raw: old(buffer)@.grown(count as nat), ..old(buffer)@ }),
        final(uploads)@ == old(uploads)@ + plan::growth(slot, old(buffer)@, count as nat),
{
    let grown = buffer.resize(count);

    if grown {
        uploads.push(Upload::CreateBuffer { slot, buffer: buffer.raw });
    }

    proof {
        assert(uploads@ =~= old(uploads)@ + plan::growth(slot, old(buffer)@, count as nat));
    }

    grown
}

/// Tells whether a kind is the given one.
fn is_kind(kind: Option<Kind>, other: Kind) -> (result: bool)
    ensures
        result == (kind == Some(other)),
{
    match kind {
        None => false,
        Some(kind) => kind == other,
    }
}

/// Returns the lower 32 bits of a number.
fn truncated(x: u64) -> (word: u32)
    ensures
        word == plan::low_word(x as nat),
{
    proof {
        assert(x as u32 == x % 0x1_0000_0000u64) by (bit_vector);
    }

    #[verifier::truncate]
    (x as u32)
}

/// Returns where the constants of the mesh with the given number start, as far as
/// 32 bits can say.
fn dynamic_offset(number: usize) -> (offset: u32)
    ensures
        offset == plan::low_word(UNIFORMS_SIZE as nat * number as nat),
{
    let word: u64 = truncated(number as u64) as u64;

    proof {
        vstd::arithmetic::div_mod::lemma_mul_mod_noop_right(
            UNIFORMS_SIZE as int,
            number as int,
            0x1_0000_0000,
        );
    }

    truncated(UNIFORMS_SIZE as u64 * word)
}

/// Tells whether every byte of the meshes can be addressed.
pub fn is_addressable(meshes: &[Mesh]) -> (result: bool)
    ensures
        result == plan::addressable(meshes@),
{
    let mut indices: usize = 0;
    let mut solid_vertices: usize = 0;
    let mut solids: usize = 0;
    let mut gradient_vertices: usize = 0;
    let mut gradients: usize = 0;
    let mut i: usize = 0;

    while i < meshes.len()
        invariant
            i <= meshes@.len(),
            indices == mesh::indices_before(meshes@, i as int),
            solid_vertices == mesh::vertices_before(meshes@, Kind::Solid, i as int),
            solids == mesh::rank(meshes@, Kind::Solid, i as int),
            gradient_vertices == mesh::vertices_before(meshes@, Kind::Gradient, i as int),
            gradients == mesh::rank(meshes@, Kind::Gradient, i as int),
            plan::within_limits(meshes@, i as int),
        decreases meshes@.len() - i,
    {
        let buffers = meshes[i].buffers();

        proof {
            plan::lemma_addressable(meshes@);
            if plan::within_limits(meshes@, meshes@.len() as int) {
                plan::lemma_within_limits(meshes@, i + 1, meshes@.len() as int);
            }
        }

        if buffers.indices > usize::MAX / INDEX_SIZE - indices {
            return false;
        }
        indices = indices + buffers.indices;

        match meshes[i].kind() {
            Kind::Solid => {
                if buffers.vertices > usize::MAX / solid::VERTEX_SIZE - solid_vertices || solids
                    == usize::MAX / UNIFORMS_SIZE {
                    return false;
                }
                solid_vertices = solid_vertices + buffers.vertices;
                solids = solids + 1;
            },
            Kind::Gradient => {
                if buffers.vertices > usize::MAX / gradient::VERTEX_SIZE - gradient_vertices
                    || gradients == usize::MAX / UNIFORMS_SIZE {
                    return false;
                }
                gradient_vertices = gradient_vertices + buffers.vertices;
                gradients = gradients + 1;
            },
        }

        i = i + 1;
    }

    proof {
        plan::lemma_addressable(meshes@);
    }

    true
}

} // verus!
