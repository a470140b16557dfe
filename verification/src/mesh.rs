//! Meshes and what they need.
use vstd::prelude::*;

verus! {

/// The two families of meshes, each drawn by a pipeline of its own.
#[derive(Clone, Copy, Debug, PartialEq, Eq, Structural)]
pub enum Kind {
    /// Every vertex has a colour.
    Solid,
    /// Every vertex has a gradient.
    Gradient,
}

/// A rectangle of physical pixels.
#[derive(Clone, Copy, Debug, PartialEq, Eq, Structural)]
pub struct Rectangle {
    /// The left edge.
    pub x: u32,
    /// The top edge.
    pub y: u32,
    /// The extent to the right.
    pub width: u32,
    /// The extent downwards.
    pub height: u32,
}

/// A 4x4 matrix of single-precision numbers in column-major order, each as its
/// bit pattern.
#[derive(Clone, Copy, Debug, PartialEq, Eq)]
pub struct Transformation {
    /// The bit patterns.
    pub bits: [u32; 16],
}

/// How much data a mesh has. The data itself stays where it is.
#[derive(Clone, Copy, Debug, PartialEq, Eq, Structural)]
pub struct Indexed {
    /// The number of vertices.
    pub vertices: usize,
    /// The number of indices.
    pub indices: usize,
}

/// A mesh to draw.
#[derive(Clone, Copy, Debug, PartialEq, Eq)]
pub enum Mesh {
    /// A mesh of solid colours.
    Solid {
        /// Its vertices and indices.
        buffers: Indexed,
        /// From the space of the mesh to the clip space of the target: the
        /// scaled projection of the viewport times the mesh's own transformation.
        transformation: Transformation,
        /// The part of the target that the mesh may touch, scaled by the
        /// viewport's scale factor and snapped to physical pixels.
        clip_bounds: Rectangle,
    },
    /// A mesh of gradients.
    Gradient {
        /// Its vertices and indices.
        buffers: Indexed,
        /// As for a solid mesh.
        transformation: Transformation,
        /// As for a solid mesh.
        clip_bounds: Rectangle,
    },
}

impl Mesh {
    /// The family of the mesh.
    pub open spec fn spec_kind(&self) -> Kind {
        match self {
            Mesh::Solid { .. } => Kind::Solid,
            Mesh::Gradient { .. } => Kind::Gradient,
        }
    }

    /// The amount of data of the mesh.
    pub open spec fn spec_buffers(&self) -> Indexed {
        match self {
            Mesh::Solid { buffers, .. } => *buffers,
            Mesh::Gradient { buffers, .. } => *buffers,
        }
    }

    /// The transformation of the mesh.
    pub open spec fn spec_transformation(&self) -> Transformation {
        match self {
            Mesh::Solid { transformation, .. } => *transformation,
            Mesh::Gradient { transformation, .. } => *transformation,
        }
    }

    /// The clip bounds of the mesh.
    pub open spec fn spec_clip_bounds(&self) -> Rectangle {
        match self {
            Mesh::Solid { clip_bounds, .. } => *clip_bounds,
            Mesh::Gradient { clip_bounds, .. } => *clip_bounds,
        }
    }

    /// At least one pixel lies within the clip bounds.
    pub open spec fn visible(&self) -> bool {
        self.spec_clip_bounds().width >= 1 && self.spec_clip_bounds().height >= 1
    }

    /// Returns the family of the mesh.
    #[verifier::when_used_as_spec(spec_kind)]
    pub fn kind(&self) -> (kind: Kind)
        ensures
            kind == self.spec_kind(),
    {
        match self {
            Mesh::Solid { .. } => Kind::Solid,
            Mesh::Gradient { .. } => Kind::Gradient,
        }
    }

    /// Returns the amount of data of the mesh.
    #[verifier::when_used_as_spec(spec_buffers)]
    pub fn buffers(&self) -> (buffers: Indexed)
        ensures
            buffers == self.spec_buffers(),
    {
        match self {
            Mesh::Solid { buffers, .. } => *buffers,
            Mesh::Gradient { buffers, .. } => *buffers,
        }
    }

    /// Returns the transformation of the mesh.
    #[verifier::when_used_as_spec(spec_transformation)]
    pub fn transformation(&self) -> (transformation: Transformation)
        ensures
            transformation == self.spec_transformation(),
    {
        match self {
            Mesh::Solid { transformation, .. } => *transformation,
            Mesh::Gradient { transformation, .. } => *transformation,
        }
    }

    /// Returns the clip bounds of the mesh.
    #[verifier::when_used_as_spec(spec_clip_bounds)]
    pub fn clip_bounds(&self) -> (clip_bounds: Rectangle)
        ensures
            clip_bounds == self.spec_clip_bounds(),
    {
        match self {
            Mesh::Solid { clip_bounds, .. } => *clip_bounds,
            Mesh::Gradient { clip_bounds, .. } => *clip_bounds,
        }
    }
}

/// The number of indices in the first `n` meshes.
pub open spec fn indices_before(meshes: Seq<Mesh>, n: int) -> nat
    decreases n,
{
    if n <= 0 {
        0
    } else {
        indices_before(meshes, n - 1) + meshes[n - 1].buffers().indices as nat
    }
}

/// The number of vertices of one kind in the first `n` meshes.
pub open spec fn vertices_before(meshes: Seq<Mesh>, kind: Kind, n: int) -> nat
    decreases n,
{
    if n <= 0 {
        0
    } else if meshes[n - 1].kind() == kind {
        vertices_before(meshes, kind, n - 1) + meshes[n - 1].buffers().vertices as nat
    } else {
        vertices_before(meshes, kind, n - 1)
    }
}

/// How many of the first `n` meshes are of one kind.
pub open spec fn rank(meshes: Seq<Mesh>, kind: Kind, n: int) -> nat
    decreases n,
{
    if n <= 0 {
        0
    } else if meshes[n - 1].kind() == kind {
        rank(meshes, kind, n - 1) + 1
    } else {
        rank(meshes, kind, n - 1)
    }
}

/// How many of the first `n` meshes are of one kind and visible.
pub open spec fn visible_rank(meshes: Seq<Mesh>, kind: Kind, n: int) -> nat
    decreases n,
{
    if n <= 0 {
        0
    } else if meshes[n - 1].kind() == kind && meshes[n - 1].visible() {
        visible_rank(meshes, kind, n - 1) + 1
    } else {
        visible_rank(meshes, kind, n - 1)
    }
}

/// The kind of the last visible one among the first `n` meshes.
pub open spec fn last_visible(meshes: Seq<Mesh>, n: int) -> Option<Kind>
    decreases n,
{
    if n <= 0 {
        None
    } else if meshes[n - 1].visible() {
        Some(meshes[n - 1].kind())
    } else {
        last_visible(meshes, n - 1)
    }
}

/// The number of vertices, indices and meshes to handle.
#[derive(Clone, Copy, Debug, PartialEq, Eq, Structural)]
pub struct AttributeCount {
    /// The number of vertices with a colour.
    pub solid_vertices: usize,
    /// The number of meshes of solid colours.
    pub solids: usize,
    /// The number of vertices with a gradient.
    pub gradient_vertices: usize,
    /// The number of meshes of gradients.
    pub gradients: usize,
    /// The number of indices.
    pub indices: usize,
}

/// The numbers of vertices and of indices can be counted by machine integers.
pub open spec fn countable(meshes: Seq<Mesh>) -> bool {
    let n = meshes.len() as int;
    &&& indices_before(meshes, n) <= usize::MAX
    &&& vertices_before(meshes, Kind::Solid, n) <= usize::MAX
    &&& vertices_before(meshes, Kind::Gradient, n) <= usize::MAX
}

/// Fewer meshes need no more.
pub proof fn lemma_monotonic(meshes: Seq<Mesh>, m: int, n: int)
    requires
        m <= n,
    ensures
        indices_before(meshes, m) <= indices_before(meshes, n),
        forall|kind: Kind|
            #![trigger vertices_before(meshes, kind, m)]
            vertices_before(meshes, kind, m) <= vertices_before(meshes, kind, n),
        forall|kind: Kind|
            #![trigger rank(meshes, kind, m)]
            rank(meshes, kind, m) <= rank(meshes, kind, n),
        forall|kind: Kind|
            #![trigger visible_rank(meshes, kind, m)]
            visible_rank(meshes, kind, m) <= visible_rank(meshes, kind, n),
    decreases n - m,
{
    if m < n {
        lemma_monotonic(meshes, m, n - 1);
    }
}

/// There are no more meshes of a kind than meshes, and no more visible ones than
/// there are of the kind.
pub proof fn lemma_rank_bounds(meshes: Seq<Mesh>, kind: Kind, n: int)
    requires
        0 <= n,
    ensures
        visible_rank(meshes, kind, n) <= rank(meshes, kind, n) <= n,
    decreases n,
{
    if 0 < n {
        lemma_rank_bounds(meshes, kind, n - 1);
    }
}

/// Counts the vertices, the indices and the meshes of each kind.
pub fn attribute_count_of(meshes: &[Mesh]) -> (count: AttributeCount)
    requires
        countable(meshes@),
    ensures
        count.solid_vertices == vertices_before(meshes@, Kind::Solid, meshes@.len() as int),
        count.solids == rank(meshes@, Kind::Solid, meshes@.len() as int),
        count.gradient_vertices == vertices_before(meshes@, Kind::Gradient, meshes@.len() as int),
        count.gradients == rank(meshes@, Kind::Gradient, meshes@.len() as int),
        count.indices == indices_before(meshes@, meshes@.len() as int),
{
    let mut count = AttributeCount {
        solid_vertices: 0,
        solids: 0,
        gradient_vertices: 0,
        gradients: 0,
        indices: 0,
    };
    let mut i: usize = 0;

    while i < meshes.len()
        invariant
            i <= meshes@.len(),
            countable(meshes@),
            count.solid_vertices == vertices_before(meshes@, Kind::Solid, i as int),
            count.solids == rank(meshes@, Kind::Solid, i as int),
            count.gradient_vertices == vertices_before(meshes@, Kind::Gradient, i as int),
            count.gradients == rank(meshes@, Kind::Gradient, i as int),
            count.indices == indices_before(meshes@, i as int),
        decreases meshes@.len() - i,
    {
        proof {
            lemma_monotonic(meshes@, i + 1, meshes@.len() as int);
            lemma_rank_bounds(meshes@, Kind::Solid, i as int);
            lemma_rank_bounds(meshes@, Kind::Gradient, i as int);
            assert(vertices_before(meshes@, Kind::Solid, i + 1) <= usize::MAX);
            assert(vertices_before(meshes@, Kind::Gradient, i + 1) <= usize::MAX);
        }

        let buffers = meshes[i].buffers();
        count.indices = count.indices + buffers.indices;

        match meshes[i].kind() {
            Kind::Solid => {
                count.solids = count.solids + 1;
                count.solid_vertices = count.solid_vertices + buffers.vertices;
            },
            Kind::Gradient => {
                count.gradients = count.gradients + 1;
                count.gradient_vertices = count.gradient_vertices + buffers.vertices;
            },
        }

        i = i + 1;
    }

    count
}

} // verus!
