//! Where the data of a layer goes, and what draws it.
use crate::buffer::BufferModel;
use crate::command::{Contents, Draw, Slot, Upload};
use crate::mesh::{Kind, Mesh};
use crate::resource::{BindGroup, BindGroupLayout, BufferDescriptor, BufferUsages, IndexFormat};
use crate::uniforms::{Uniforms, UNIFORMS_SIZE};
use crate::{gradient, mesh, solid, INITIAL_INDEX_COUNT};
use vstd::prelude::*;

verus! {

/// The number of bytes of an index.
pub const INDEX_SIZE: usize = 4;

/// The contents of the part of a layer for one kind of mesh.
#[verifier::ext_equal]
pub struct FamilyModel {
    /// The vertices.
    pub vertices: BufferModel,
    /// The constants of each mesh.
    pub uniforms: BufferModel,
    /// The bind group with the constants.
    pub constants: BindGroup,
}

/// The contents of a [`Layer`].
#[verifier::ext_equal]
pub struct LayerModel {
    /// The indices of all meshes.
    pub index_buffer: BufferModel,
    /// The number of indices of each mesh.
    pub index_strides: Seq<u32>,
    /// What the meshes of solid colours need.
    pub solid: FamilyModel,
    /// What the meshes of gradients need.
    pub gradient: FamilyModel,
}

/// The number of bytes of a vertex.
pub open spec fn vertex_size(kind: Kind) -> nat {
    match kind {
        Kind::Solid => solid::VERTEX_SIZE as nat,
        Kind::Gradient => gradient::VERTEX_SIZE as nat,
    }
}

/// The bind group with the constants in the given buffer.
pub open spec fn constants_in(
    kind: Kind,
    buffer: BufferDescriptor,
    layout: BindGroupLayout,
) -> BindGroup {
    match kind {
        Kind::Solid => solid::constants_in(buffer, layout),
        Kind::Gradient => gradient::constants_in(buffer, layout),
    }
}

/// The lower 32 bits of a number.
pub open spec fn low_word(x: nat) -> u32 {
    (x % 0x1_0000_0000) as u32
}

/// Where the indices of the mesh with the given number start.
pub open spec fn index_offset(meshes: Seq<Mesh>, i: int) -> nat {
    INDEX_SIZE as nat * mesh::indices_before(meshes, i)
}

/// Where the next vertices of one kind start, after the first `i` meshes.
pub open spec fn vertex_offset(meshes: Seq<Mesh>, kind: Kind, i: int) -> nat {
    vertex_size(kind) * mesh::vertices_before(meshes, kind, i)
}

/// Where the next constants of one kind start, after the first `i` meshes.
pub open spec fn uniform_offset(meshes: Seq<Mesh>, kind: Kind, i: int) -> nat {
    UNIFORMS_SIZE as nat * mesh::rank(meshes, kind, i)
}

/// Where the indices of each of the first `n` meshes start.
pub open spec fn index_offsets(meshes: Seq<Mesh>, n: int) -> Seq<u64> {
    Seq::new(n as nat, |i: int| index_offset(meshes, i) as u64)
}

/// The number of indices of each of the first `n` meshes.
pub open spec fn index_strides(meshes: Seq<Mesh>, n: int) -> Seq<u32> {
    Seq::new(n as nat, |i: int| low_word(meshes[i].buffers().indices as nat))
}

/// Where the vertices of each mesh of one kind start, among the first `n` meshes.
pub open spec fn vertex_offsets(meshes: Seq<Mesh>, kind: Kind, n: int) -> Seq<u64>
    decreases n,
{
    if n <= 0 {
        Seq::empty()
    } else if meshes[n - 1].kind() == kind {
        vertex_offsets(meshes, kind, n - 1).push(vertex_offset(meshes, kind, n - 1) as u64)
    } else {
        vertex_offsets(meshes, kind, n - 1)
    }
}

/// Where the constants of each mesh of one kind start, among the first `n` meshes.
pub open spec fn uniform_offsets(meshes: Seq<Mesh>, kind: Kind, n: int) -> Seq<u64> {
    Seq::new(
        mesh::rank(meshes, kind, n),
        |k: int| (UNIFORMS_SIZE as nat * k as nat) as u64,
    )
}

/// Every byte of the meshes can be addressed.
pub open spec fn addressable(meshes: Seq<Mesh>) -> bool {
    let n = meshes.len() as int;
    &&& index_offset(meshes, n) <= usize::MAX
    &&& vertex_offset(meshes, Kind::Solid, n) <= usize::MAX
    &&& vertex_offset(meshes, Kind::Gradient, n) <= usize::MAX
    &&& uniform_offset(meshes, Kind::Solid, n) <= usize::MAX
    &&& uniform_offset(meshes, Kind::Gradient, n) <= usize::MAX
}

impl FamilyModel {
    /// The buffers hold vertices and constants of the given kind, and the bind group
    /// refers to the constants where they are now.
    pub open spec fn wf(self, kind: Kind) -> bool {
        &&& self.vertices.stride == vertex_size(kind)
        &&& self.uniforms.stride == UNIFORMS_SIZE
        &&& self.constants == constants_in(kind, self.uniforms.raw, self.constants.layout)
    }

    /// The buffers have room for some vertices and the constants of some meshes. If
    /// that took another uniform buffer, the bind group is a new one too.
    pub open spec fn resized(
        self,
        kind: Kind,
        vertices: nat,
        meshes: nat,
        layout: BindGroupLayout,
    ) -> FamilyModel {
        FamilyModel {
            vertices: BufferModel { raw: self.vertices.grown(vertices), ..self.vertices },
            uniforms: BufferModel { raw: self.uniforms.grown(meshes), ..self.uniforms },
            constants: if self.uniforms.holds(meshes) {
                self.constants
            } else {
                constants_in(kind, self.uniforms.grown(meshes), layout)
            },
        }
    }

    /// The buffers hold what the first `n` meshes need, and nothing else.
    pub open spec fn filled(self, kind: Kind, meshes: Seq<Mesh>, n: int) -> FamilyModel {
        FamilyModel {
            vertices: BufferModel {
                offsets: vertex_offsets(meshes, kind, n),
                ..self.vertices
            },
            uniforms: BufferModel {
                offsets: uniform_offsets(meshes, kind, n),
                ..self.uniforms
            },
            ..self
        }
    }
}

/// The step that makes room for `count` elements, if one is needed.
pub open spec fn growth(slot: Slot, buffer: BufferModel, count: nat) -> Seq<Upload> {
    if buffer.holds(count) {
        Seq::empty()
    } else {
        seq![Upload::CreateBuffer { slot, buffer: buffer.grown(count) }]
    }
}

/// The steps that make room for the constants of `count` meshes, if any are needed.
pub open spec fn constants_growth(
    kind: Kind,
    buffer: BufferModel,
    count: nat,
    layout: BindGroupLayout,
) -> Seq<Upload> {
    if buffer.holds(count) {
        Seq::empty()
    } else {
        seq![
            Upload::CreateBuffer { slot: Slot::Uniforms(kind), buffer: buffer.grown(count) },
            Upload::CreateBindGroup {
                kind,
                group: constants_in(kind, buffer.grown(count), layout),
            },
        ]
    }
}

/// The steps that write what the mesh with the given number needs: its indices, its
/// vertices and its constants, each behind those of the meshes before it.
pub open spec fn mesh_writes(meshes: Seq<Mesh>, i: int) -> Seq<Upload> {
    let kind = meshes[i].kind();
    seq![
        Upload::Write {
            slot: Slot::Indices,
            offset: index_offset(meshes, i) as u64,
            contents: Contents::Indices(i as usize),
        },
        Upload::Write {
            slot: Slot::Vertices(kind),
            offset: vertex_offset(meshes, kind, i) as u64,
            contents: Contents::Vertices(i as usize),
        },
        Upload::Write {
            slot: Slot::Uniforms(kind),
            offset: uniform_offset(meshes, kind, i) as u64,
            contents: Contents::Uniforms(Uniforms::of(meshes[i].transformation())),
        },
    ]
}

/// The steps that write what the first `n` meshes need.
pub open spec fn writes(meshes: Seq<Mesh>, n: int) -> Seq<Upload>
    decreases n,
{
    if n <= 0 {
        Seq::empty()
    } else {
        writes(meshes, n - 1) + mesh_writes(meshes, n - 1)
    }
}

/// The steps that draw the mesh with the given number from what the layer holds.
///
/// A mesh without a visible pixel is passed over. The constants and the vertices
/// are those that were prepared as number so many of the mesh's kind as visible
/// meshes of the kind come before it.
pub open spec fn mesh_draws(layer: LayerModel, meshes: Seq<Mesh>, i: int) -> Seq<Draw> {
    let kind = meshes[i].kind();
    let k = mesh::visible_rank(meshes, kind, i);
    if !meshes[i].visible() {
        Seq::empty()
    } else {
        seq![Draw::SetScissorRect(meshes[i].clip_bounds())] + (if mesh::last_visible(
            meshes,
            i,
        ) == Some(kind) {
            Seq::empty()
        } else {
            seq![Draw::SetPipeline(kind)]
        }) + seq![
            Draw::SetBindGroup {
                index: 0,
                kind,
                dynamic_offset: low_word(UNIFORMS_SIZE as nat * k),
            },
            Draw::SetVertexBuffer {
                index: 0,
                slot: Slot::Vertices(kind),
                offset: layer.family(kind).vertices.offsets[k as int],
            },
            Draw::SetIndexBuffer {
                slot: Slot::Indices,
                offset: layer.index_buffer.offsets[i],
                format: IndexFormat::Uint32,
            },
            Draw::DrawIndexed {
                first_index: 0,
                end_index: layer.index_strides[i],
                base_vertex: 0,
                first_instance: 0,
                end_instance: 1,
            },
        ]
    }
}

/// The steps that draw the first `n` meshes.
pub open spec fn draws(layer: LayerModel, meshes: Seq<Mesh>, n: int) -> Seq<Draw>
    decreases n,
{
    if n <= 0 {
        Seq::empty()
    } else {
        draws(layer, meshes, n - 1) + mesh_draws(layer, meshes, n - 1)
    }
}

impl LayerModel {
    /// The part for one kind of mesh.
    pub open spec fn family(self, kind: Kind) -> FamilyModel {
        match kind {
            Kind::Solid => self.solid,
            Kind::Gradient => self.gradient,
        }
    }

    /// Each buffer holds elements of the right size, and both bind groups refer to
    /// the constants where they are now.
    pub open spec fn wf(self) -> bool {
        &&& self.index_buffer.stride == INDEX_SIZE
        &&& self.index_buffer.offsets.len() == self.index_strides.len()
        &&& self.solid.wf(Kind::Solid)
        &&& self.gradient.wf(Kind::Gradient)
    }

    /// The layer once its buffers have room for what the meshes need.
    pub open spec fn resized(
        self,
        meshes: Seq<Mesh>,
        solid: BindGroupLayout,
        gradient: BindGroupLayout,
    ) -> LayerModel {
        let n = meshes.len() as int;
        LayerModel {
            index_buffer: BufferModel {
                raw: self.index_buffer.grown(mesh::indices_before(meshes, n)),
                ..self.index_buffer
            },
            solid: self.solid.resized(
                Kind::Solid,
                mesh::vertices_before(meshes, Kind::Solid, n),
                mesh::rank(meshes, Kind::Solid, n),
                solid,
            ),
            gradient: self.gradient.resized(
                Kind::Gradient,
                mesh::vertices_before(meshes, Kind::Gradient, n),
                mesh::rank(meshes, Kind::Gradient, n),
                gradient,
            ),
            ..self
        }
    }

    /// The buffers have room for what the meshes need.
    pub open spec fn has_room(self, meshes: Seq<Mesh>) -> bool {
        let n = meshes.len() as int;
        &&& index_offset(meshes, n) <= self.index_buffer.raw.size
        &&& vertex_offset(meshes, Kind::Solid, n) <= self.solid.vertices.raw.size
        &&& uniform_offset(meshes, Kind::Solid, n) <= self.solid.uniforms.raw.size
        &&& vertex_offset(meshes, Kind::Gradient, n) <= self.gradient.vertices.raw.size
        &&& uniform_offset(meshes, Kind::Gradient, n) <= self.gradient.uniforms.raw.size
    }

    /// The layer holds what the first `n` meshes need, and nothing else.
    pub open spec fn filled(self, meshes: Seq<Mesh>, n: int) -> LayerModel {
        LayerModel {
            index_buffer: BufferModel {
                offsets: index_offsets(meshes, n),
                ..self.index_buffer
            },
            index_strides: index_strides(meshes, n),
            solid: self.solid.filled(Kind::Solid, meshes, n),
            gradient: self.gradient.filled(Kind::Gradient, meshes, n),
        }
    }

    /// The layer after it was prepared for the meshes.
    #[verifier::opaque]
    pub open spec fn prepared(
        self,
        meshes: Seq<Mesh>,
        solid: BindGroupLayout,
        gradient: BindGroupLayout,
    ) -> LayerModel {
        self.resized(meshes, solid, gradient).filled(meshes, meshes.len() as int)
    }

    /// The steps that make room for what the meshes need.
    pub open spec fn growths(
        self,
        meshes: Seq<Mesh>,
        solid: BindGroupLayout,
        gradient: BindGroupLayout,
    ) -> Seq<Upload> {
        let n = meshes.len() as int;
        growth(
            Slot::Indices,
            self.index_buffer,
            mesh::indices_before(meshes, n),
        ) + growth(
            Slot::Vertices(Kind::Solid),
            self.solid.vertices,
            mesh::vertices_before(meshes, Kind::Solid, n),
        ) + growth(
            Slot::Vertices(Kind::Gradient),
            self.gradient.vertices,
            mesh::vertices_before(meshes, Kind::Gradient, n),
        ) + constants_growth(
            Kind::Solid,
            self.solid.uniforms,
            mesh::rank(meshes, Kind::Solid, n),
            solid,
        ) + constants_growth(
            Kind::Gradient,
            self.gradient.uniforms,
            mesh::rank(meshes, Kind::Gradient, n),
            gradient,
        )
    }

    /// The steps that prepare the layer for the meshes: first those that make room,
    /// then those that write.
    #[verifier::opaque]
    pub open spec fn uploads(
        self,
        meshes: Seq<Mesh>,
        solid: BindGroupLayout,
        gradient: BindGroupLayout,
    ) -> Seq<Upload> {
        self.growths(meshes, solid, gradient) + writes(meshes, meshes.len() as int)
    }

    /// The steps that create what a layer starts with.
    #[verifier::opaque]
    pub open spec fn creations(self) -> Seq<Upload> {
        seq![
            Upload::CreateBuffer { slot: Slot::Indices, buffer: self.index_buffer.raw },
            Upload::CreateBuffer {
                slot: Slot::Vertices(Kind::Solid),
                buffer: self.solid.vertices.raw,
            },
            Upload::CreateBuffer {
                slot: Slot::Uniforms(Kind::Solid),
                buffer: self.solid.uniforms.raw,
            },
            Upload::CreateBindGroup { kind: Kind::Solid, group: self.solid.constants },
            Upload::CreateBuffer {
                slot: Slot::Vertices(Kind::Gradient),
                buffer: self.gradient.vertices.raw,
            },
            Upload::CreateBuffer {
                slot: Slot::Uniforms(Kind::Gradient),
                buffer: self.gradient.uniforms.raw,
            },
            Upload::CreateBindGroup { kind: Kind::Gradient, group: self.gradient.constants },
        ]
    }

    /// The layer holds something for each of the first `n` meshes that has a visible
    /// pixel.
    pub open spec fn renderable_until(self, meshes: Seq<Mesh>, n: int) -> bool {
        forall|i: int|
            0 <= i < n && (#[trigger] meshes[i]).visible() ==> {
                let kind = meshes[i].kind();
                &&& i < self.index_strides.len()
                &&& i < self.index_buffer.offsets.len()
                &&& mesh::visible_rank(meshes, kind, i) < self.family(
                    kind,
                ).vertices.offsets.len()
            }
    }

    /// The layer holds something for every mesh with a visible pixel.
    pub open spec fn renderable(self, meshes: Seq<Mesh>) -> bool {
        self.renderable_until(meshes, meshes.len() as int)
    }
}

/// A layer with which nothing has been done yet.
#[verifier::opaque]
pub open spec fn new_layer(solid: BindGroupLayout, gradient: BindGroupLayout) -> LayerModel {
    LayerModel {
        index_buffer: BufferModel {
            raw: BufferDescriptor {
                label: "iced_wgpu.triangle.index_buffer",
                size: (INDEX_SIZE * INITIAL_INDEX_COUNT) as u64,
                usage: BufferUsages { index: true, vertex: false, uniform: false, copy_dst: true },
            },
            stride: INDEX_SIZE as nat,
            offsets: Seq::empty(),
        },
        index_strides: Seq::empty(),
        solid: solid::new_layer(solid),
        gradient: gradient::new_layer(gradient),
    }
}

/// Meshes whose bytes can be addressed can be counted.
pub proof fn lemma_countable(meshes: Seq<Mesh>)
    requires
        addressable(meshes),
    ensures
        mesh::countable(meshes),
        solid::VERTEX_SIZE * mesh::vertices_before(
            meshes,
            Kind::Solid,
            meshes.len() as int,
        ) <= usize::MAX,
        gradient::VERTEX_SIZE * mesh::vertices_before(
            meshes,
            Kind::Gradient,
            meshes.len() as int,
        ) <= usize::MAX,
{
}

/// The counts under which every byte can be addressed.
pub open spec fn within_limits(meshes: Seq<Mesh>, n: int) -> bool {
    &&& mesh::indices_before(meshes, n) <= usize::MAX / INDEX_SIZE
    &&& mesh::vertices_before(meshes, Kind::Solid, n) <= usize::MAX / solid::VERTEX_SIZE
    &&& mesh::vertices_before(meshes, Kind::Gradient, n) <= usize::MAX / gradient::VERTEX_SIZE
    &&& mesh::rank(meshes, Kind::Solid, n) <= usize::MAX / UNIFORMS_SIZE
    &&& mesh::rank(meshes, Kind::Gradient, n) <= usize::MAX / UNIFORMS_SIZE
}

/// Every byte can be addressed if and only if the counts are within their limits.
pub proof fn lemma_addressable(meshes: Seq<Mesh>)
    ensures
        addressable(meshes) == within_limits(meshes, meshes.len() as int),
{
    let n = meshes.len() as int;
    let solids = mesh::vertices_before(meshes, Kind::Solid, n);
    let gradients = mesh::vertices_before(meshes, Kind::Gradient, n);
    assert(vertex_offset(meshes, Kind::Solid, n) == 24 * solids);
    assert(vertex_offset(meshes, Kind::Gradient, n) == 104 * gradients);
}

/// What fewer meshes need is within the limits if what all need is.
pub proof fn lemma_within_limits(meshes: Seq<Mesh>, m: int, n: int)
    requires
        m <= n,
        within_limits(meshes, n),
    ensures
        within_limits(meshes, m),
{
    mesh::lemma_monotonic(meshes, m, n);
    assert(mesh::vertices_before(meshes, Kind::Solid, m) <= mesh::vertices_before(
        meshes,
        Kind::Solid,
        n,
    ));
    assert(mesh::vertices_before(meshes, Kind::Gradient, m) <= mesh::vertices_before(
        meshes,
        Kind::Gradient,
        n,
    ));
    assert(mesh::rank(meshes, Kind::Solid, m) <= mesh::rank(meshes, Kind::Solid, n));
    assert(mesh::rank(meshes, Kind::Gradient, m) <= mesh::rank(meshes, Kind::Gradient, n));
}

/// A layer that was resized for some meshes has room for them.
pub proof fn lemma_resized(
    layer: LayerModel,
    meshes: Seq<Mesh>,
    solid: BindGroupLayout,
    gradient: BindGroupLayout,
)
    requires
        layer.wf(),
        addressable(meshes),
    ensures
        layer.resized(meshes, solid, gradient).wf(),
        layer.resized(meshes, solid, gradient).has_room(meshes),
{
    lemma_countable(meshes);
}

/// How the offsets go on from one mesh to the next, and that they stay in bounds.
pub proof fn lemma_offsets(meshes: Seq<Mesh>, kind: Kind, i: int)
    requires
        0 <= i < meshes.len(),
    ensures
        index_offset(meshes, i + 1) == index_offset(meshes, i) + INDEX_SIZE
            * meshes[i].buffers().indices,
        index_offset(meshes, i + 1) <= index_offset(meshes, meshes.len() as int),
        meshes[i].kind() == kind ==> vertex_offset(meshes, kind, i + 1) == vertex_offset(
            meshes,
            kind,
            i,
        ) + vertex_size(kind) * meshes[i].buffers().vertices,
        meshes[i].kind() != kind ==> vertex_offset(meshes, kind, i + 1) == vertex_offset(
            meshes,
            kind,
            i,
        ),
        vertex_offset(meshes, kind, i + 1) <= vertex_offset(meshes, kind, meshes.len() as int),
        meshes[i].kind() == kind ==> uniform_offset(meshes, kind, i + 1) == uniform_offset(
            meshes,
            kind,
            i,
        ) + UNIFORMS_SIZE,
        meshes[i].kind() != kind ==> uniform_offset(meshes, kind, i + 1) == uniform_offset(
            meshes,
            kind,
            i,
        ),
        uniform_offset(meshes, kind, i + 1) <= uniform_offset(meshes, kind, meshes.len() as int),
{
    let n = meshes.len() as int;
    let size = vertex_size(kind) as int;
    let vertices = meshes[i].buffers().vertices as int;
    let now = mesh::vertices_before(meshes, kind, i) as int;
    let next = mesh::vertices_before(meshes, kind, i + 1) as int;
    let all = mesh::vertices_before(meshes, kind, n) as int;

    mesh::lemma_monotonic(meshes, i + 1, n);
    assert(mesh::rank(meshes, kind, i + 1) <= mesh::rank(meshes, kind, n));
    assert(size * (now + vertices) == size * now + size * vertices) by (nonlinear_arith);
    assert(size * next <= size * all) by (nonlinear_arith)
        requires
            0 <= size,
            next <= all,
    ;
}

/// How what a layer holds goes on from one mesh to the next.
pub proof fn lemma_filled(meshes: Seq<Mesh>, i: int)
    requires
        0 <= i < meshes.len(),
    ensures
        index_offsets(meshes, i + 1) == index_offsets(meshes, i).push(
            index_offset(meshes, i) as u64,
        ),
        index_strides(meshes, i + 1) == index_strides(meshes, i).push(
            low_word(meshes[i].buffers().indices as nat),
        ),
        forall|kind: Kind|
            #![trigger uniform_offsets(meshes, kind, i + 1)]
            uniform_offsets(meshes, kind, i + 1) == if meshes[i].kind() == kind {
                uniform_offsets(meshes, kind, i).push(uniform_offset(meshes, kind, i) as u64)
            } else {
                uniform_offsets(meshes, kind, i)
            },
{
    assert(index_offsets(meshes, i + 1) =~= index_offsets(meshes, i).push(
        index_offset(meshes, i) as u64,
    ));
    assert(index_strides(meshes, i + 1) =~= index_strides(meshes, i).push(
        low_word(meshes[i].buffers().indices as nat),
    ));
    assert forall|kind: Kind| #![trigger uniform_offsets(meshes, kind, i + 1)]
        uniform_offsets(meshes, kind, i + 1) == if meshes[i].kind() == kind {
            uniform_offsets(meshes, kind, i).push(uniform_offset(meshes, kind, i) as u64)
        } else {
            uniform_offsets(meshes, kind, i)
        } by {
        assert(uniform_offsets(meshes, kind, i + 1) =~= if meshes[i].kind() == kind {
            uniform_offsets(meshes, kind, i).push(uniform_offset(meshes, kind, i) as u64)
        } else {
            uniform_offsets(meshes, kind, i)
        });
    }
}

/// Appending one sequence after another is appending all of them at once.
pub proof fn lemma_concatenation<A>(s: Seq<A>, a: Seq<A>, b: Seq<A>, c: Seq<A>, d: Seq<A>, e: Seq<A>)
    ensures
        s + a + b + c + d + e == s + (a + b + c + d + e),
{
    assert(s + a + b + c + d + e =~= s + (a + b + c + d + e));
}

} // verus!
