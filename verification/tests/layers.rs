use triangle::command::{Contents, Draw, Slot, Upload};
use triangle::layer::is_addressable;
use triangle::mesh::{
    attribute_count_of, AttributeCount, Indexed, Kind, Mesh, Rectangle, Transformation,
};
use triangle::resource::{BufferDescriptor, BufferUsages, IndexFormat};
use triangle::{gradient, solid, Layer, Uniforms};

const FORMAT: wgpu::TextureFormat = wgpu::TextureFormat::Rgba8Unorm;

const VISIBLE: Rectangle = Rectangle { x: 1, y: 2, width: 30, height: 40 };

fn transformation(seed: u32) -> Transformation {
    Transformation { bits: [seed; 16] }
}

fn solid_mesh(seed: u32, vertices: usize, indices: usize) -> Mesh {
    Mesh::Solid {
        buffers: Indexed { vertices, indices },
        transformation: transformation(seed),
        clip_bounds: VISIBLE,
    }
}

fn gradient_mesh(seed: u32, vertices: usize, indices: usize) -> Mesh {
    Mesh::Gradient {
        buffers: Indexed { vertices, indices },
        transformation: transformation(seed),
        clip_bounds: VISIBLE,
    }
}

fn hidden(mesh: Mesh, width: u32, height: u32) -> Mesh {
    let clip_bounds = Rectangle { x: 0, y: 0, width, height };

    match mesh {
        Mesh::Solid { buffers, transformation, .. } => {
            Mesh::Solid { buffers, transformation, clip_bounds }
        }
        Mesh::Gradient { buffers, transformation, .. } => {
            Mesh::Gradient { buffers, transformation, clip_bounds }
        }
    }
}

fn pipelines() -> (solid::Pipeline, gradient::Pipeline) {
    (solid::Pipeline::new(FORMAT, None), gradient::Pipeline::new(FORMAT, None, true))
}

fn layer() -> Layer {
    let (solid, gradient) = pipelines();

    Layer::new(&solid, &gradient)
}

fn prepare(layer: &mut Layer, meshes: &[Mesh]) -> Vec<Upload> {
    let (solid, gradient) = pipelines();

    layer.prepare(&solid, &gradient, meshes)
}

fn write(slot: Slot, offset: u64, contents: Contents) -> Upload {
    Upload::Write { slot, offset, contents }
}

fn constants(seed: u32) -> Contents {
    Contents::Uniforms(Uniforms::new(transformation(seed)))
}

fn creations(uploads: &[Upload]) -> usize {
    uploads.iter().filter(|upload| !matches!(upload, Upload::Write { .. })).count()
}

fn draw(end_index: u32) -> Draw {
    Draw::DrawIndexed {
        first_index: 0,
        end_index,
        base_vertex: 0,
        first_instance: 0,
        end_instance: 1,
    }
}

fn indices(offset: u64) -> Draw {
    Draw::SetIndexBuffer { slot: Slot::Indices, offset, format: IndexFormat::Uint32 }
}

fn vertices(kind: Kind, offset: u64) -> Draw {
    Draw::SetVertexBuffer { index: 0, slot: Slot::Vertices(kind), offset }
}

fn group(kind: Kind, dynamic_offset: u32) -> Draw {
    Draw::SetBindGroup { index: 0, kind, dynamic_offset }
}

#[test]
fn attributes_are_counted() {
    assert_eq!(
        attribute_count_of(&[solid_mesh(0, 3, 6), gradient_mesh(0, 5, 9), solid_mesh(0, 4, 3)]),
        AttributeCount {
            solid_vertices: 7,
            solids: 2,
            gradient_vertices: 5,
            gradients: 1,
            indices: 18,
        },
    );
    assert_eq!(
        attribute_count_of(&[]),
        AttributeCount {
            solid_vertices: 0,
            solids: 0,
            gradient_vertices: 0,
            gradients: 0,
            indices: 0,
        },
    );
}

#[test]
fn meshes_tell_about_themselves() {
    let mesh = gradient_mesh(7, 1, 2);

    assert_eq!(mesh.kind(), Kind::Gradient);
    assert_eq!(mesh.buffers(), Indexed { vertices: 1, indices: 2 });
    assert_eq!(mesh.transformation(), transformation(7));
    assert_eq!(mesh.clip_bounds(), VISIBLE);
    assert_eq!(solid_mesh(7, 1, 2).kind(), Kind::Solid);
}

#[test]
fn huge_meshes_cannot_be_addressed() {
    assert!(is_addressable(&[]));
    assert!(is_addressable(&[solid_mesh(0, 1_000_000, 3_000_000)]));
    assert!(is_addressable(&[solid_mesh(0, usize::MAX / 24, usize::MAX / 4)]));
    assert!(!is_addressable(&[solid_mesh(0, usize::MAX / 24 + 1, 0)]));
    assert!(!is_addressable(&[solid_mesh(0, 0, usize::MAX / 4 + 1)]));
    assert!(!is_addressable(&[gradient_mesh(0, usize::MAX / 104 + 1, 0)]));
    assert!(!is_addressable(&[
        gradient_mesh(0, 0, usize::MAX / 4),
        solid_mesh(0, 0, 1),
    ]));
}

#[test]
fn new_layers_have_some_room() {
    let layer = layer();

    assert_eq!(
        layer.index_buffer.raw,
        BufferDescriptor {
            label: "iced_wgpu.triangle.index_buffer",
            size: 4_000,
            usage: BufferUsages { index: true, vertex: false, uniform: false, copy_dst: true },
        },
    );
    assert_eq!(layer.index_strides, vec![]);
    assert_eq!(
        layer.creations(),
        vec![
            Upload::CreateBuffer { slot: Slot::Indices, buffer: layer.index_buffer.raw },
            Upload::CreateBuffer {
                slot: Slot::Vertices(Kind::Solid),
                buffer: layer.solid.vertices.raw,
            },
            Upload::CreateBuffer {
                slot: Slot::Uniforms(Kind::Solid),
                buffer: layer.solid.uniforms.raw,
            },
            Upload::CreateBindGroup { kind: Kind::Solid, group: layer.solid.constants },
            Upload::CreateBuffer {
                slot: Slot::Vertices(Kind::Gradient),
                buffer: layer.gradient.vertices.raw,
            },
            Upload::CreateBuffer {
                slot: Slot::Uniforms(Kind::Gradient),
                buffer: layer.gradient.uniforms.raw,
            },
            Upload::CreateBindGroup { kind: Kind::Gradient, group: layer.gradient.constants },
        ],
    );
}

#[test]
fn small_meshes_are_only_written() {
    let mut layer = layer();
    let uploads = prepare(&mut layer, &[solid_mesh(1, 3, 6), gradient_mesh(2, 5, 9)]);

    assert_eq!(
        uploads,
        vec![
            write(Slot::Indices, 0, Contents::Indices(0)),
            write(Slot::Vertices(Kind::Solid), 0, Contents::Vertices(0)),
            write(Slot::Uniforms(Kind::Solid), 0, constants(1)),
            write(Slot::Indices, 24, Contents::Indices(1)),
            write(Slot::Vertices(Kind::Gradient), 0, Contents::Vertices(1)),
            write(Slot::Uniforms(Kind::Gradient), 0, constants(2)),
        ],
    );
    assert_eq!(layer.index_strides, vec![6, 9]);
    assert_eq!(layer.index_buffer.offsets, vec![0, 24]);
}

#[test]
fn each_kind_has_its_own_offsets() {
    let mut layer = layer();
    let meshes = [
        solid_mesh(1, 3, 6),
        gradient_mesh(2, 5, 9),
        solid_mesh(3, 4, 3),
        gradient_mesh(4, 2, 12),
        solid_mesh(5, 1, 1),
    ];
    let uploads = prepare(&mut layer, &meshes);
    let writes = &uploads[creations(&uploads)..];

    assert_eq!(
        writes,
        [
            write(Slot::Indices, 0, Contents::Indices(0)),
            write(Slot::Vertices(Kind::Solid), 0, Contents::Vertices(0)),
            write(Slot::Uniforms(Kind::Solid), 0, constants(1)),
            write(Slot::Indices, 24, Contents::Indices(1)),
            write(Slot::Vertices(Kind::Gradient), 0, Contents::Vertices(1)),
            write(Slot::Uniforms(Kind::Gradient), 0, constants(2)),
            write(Slot::Indices, 60, Contents::Indices(2)),
            write(Slot::Vertices(Kind::Solid), 72, Contents::Vertices(2)),
            write(Slot::Uniforms(Kind::Solid), 256, constants(3)),
            write(Slot::Indices, 72, Contents::Indices(3)),
            write(Slot::Vertices(Kind::Gradient), 520, Contents::Vertices(3)),
            write(Slot::Uniforms(Kind::Gradient), 256, constants(4)),
            write(Slot::Indices, 120, Contents::Indices(4)),
            write(Slot::Vertices(Kind::Solid), 168, Contents::Vertices(4)),
            write(Slot::Uniforms(Kind::Solid), 512, constants(5)),
        ],
    );
    assert_eq!(layer.solid.vertices.offsets, vec![0, 72, 168]);
    assert_eq!(layer.solid.uniforms.offsets, vec![0, 256, 512]);
    assert_eq!(layer.gradient.vertices.offsets, vec![0, 520]);
    assert_eq!(layer.gradient.uniforms.offsets, vec![0, 256]);
}

#[test]
fn buffers_grow_before_they_are_written() {
    let mut layer = layer();
    let meshes = [
        solid_mesh(1, 1_001, 1_001),
        solid_mesh(2, 0, 0),
        gradient_mesh(3, 1_001, 0),
        gradient_mesh(4, 0, 0),
    ];
    let uploads = prepare(&mut layer, &meshes);

    assert_eq!(
        uploads[..7],
        [
            Upload::CreateBuffer { slot: Slot::Indices, buffer: layer.index_buffer.raw },
            Upload::CreateBuffer {
                slot: Slot::Vertices(Kind::Solid),
                buffer: layer.solid.vertices.raw,
            },
            Upload::CreateBuffer {
                slot: Slot::Vertices(Kind::Gradient),
                buffer: layer.gradient.vertices.raw,
            },
            Upload::CreateBuffer {
                slot: Slot::Uniforms(Kind::Solid),
                buffer: layer.solid.uniforms.raw,
            },
            Upload::CreateBindGroup { kind: Kind::Solid, group: layer.solid.constants },
            Upload::CreateBuffer {
                slot: Slot::Uniforms(Kind::Gradient),
                buffer: layer.gradient.uniforms.raw,
            },
            Upload::CreateBindGroup { kind: Kind::Gradient, group: layer.gradient.constants },
        ],
    );
    assert_eq!(uploads.len(), 7 + 12);
    assert_eq!(layer.index_buffer.raw.size, 4_004);
    assert_eq!(layer.solid.vertices.raw.size, 24_024);
    assert_eq!(layer.gradient.vertices.raw.size, 104_104);
    assert_eq!(layer.solid.uniforms.raw.size, 512);
    assert_eq!(layer.gradient.uniforms.raw.size, 512);
}

#[test]
fn bind_groups_follow_their_buffer() {
    let mut layer = layer();

    for count in [1, 2, 5, 3, 8] {
        let meshes = vec![solid_mesh(0, 3, 3); count];
        let _ = prepare(&mut layer, &meshes);

        assert_eq!(layer.solid.constants.buffer, layer.solid.uniforms.raw);
        assert_eq!(layer.gradient.constants.buffer, layer.gradient.uniforms.raw);
    }

    assert_eq!(layer.solid.uniforms.raw.size, 2_048);
    assert_eq!(layer.gradient.uniforms.raw.size, 256);
}

#[test]
fn buffers_do_not_shrink() {
    let mut layer = layer();

    let _ = prepare(&mut layer, &[solid_mesh(0, 5_000, 6_000)]);
    let uploads = prepare(&mut layer, &[solid_mesh(0, 3, 3)]);

    assert_eq!(creations(&uploads), 0);
    assert_eq!(layer.index_buffer.raw.size, 24_000);
    assert_eq!(layer.solid.vertices.raw.size, 120_000);
    assert_eq!(layer.index_strides, vec![3]);
}

#[test]
fn the_same_meshes_are_written_every_time() {
    let mut layer = layer();
    let meshes = [solid_mesh(1, 2_000, 3_000), gradient_mesh(2, 5, 9), gradient_mesh(3, 5, 9)];

    let first = prepare(&mut layer, &meshes);
    let strides = layer.index_strides.clone();
    let second = prepare(&mut layer, &meshes);

    assert_eq!(creations(&first), 4);
    assert_eq!(second, first[4..]);
    assert_eq!(layer.index_strides, strides);
}

#[test]
fn meshes_are_drawn_from_where_they_were_written() {
    let mut layer = layer();
    let meshes = [
        solid_mesh(1, 3, 6),
        solid_mesh(2, 4, 3),
        gradient_mesh(3, 5, 9),
        solid_mesh(4, 1, 1),
    ];
    let _ = prepare(&mut layer, &meshes);

    assert!(layer.can_render(&meshes));
    assert_eq!(
        layer.render(&meshes),
        vec![
            Draw::SetScissorRect(VISIBLE),
            Draw::SetPipeline(Kind::Solid),
            group(Kind::Solid, 0),
            vertices(Kind::Solid, 0),
            indices(0),
            draw(6),
            Draw::SetScissorRect(VISIBLE),
            group(Kind::Solid, 256),
            vertices(Kind::Solid, 72),
            indices(24),
            draw(3),
            Draw::SetScissorRect(VISIBLE),
            Draw::SetPipeline(Kind::Gradient),
            group(Kind::Gradient, 0),
            vertices(Kind::Gradient, 0),
            indices(36),
            draw(9),
            Draw::SetScissorRect(VISIBLE),
            Draw::SetPipeline(Kind::Solid),
            group(Kind::Solid, 512),
            vertices(Kind::Solid, 168),
            indices(72),
            draw(1),
        ],
    );
}

#[test]
fn hidden_meshes_are_not_drawn() {
    let mut layer = layer();
    let meshes = [
        hidden(solid_mesh(1, 3, 6), 0, 10),
        hidden(gradient_mesh(2, 3, 6), 10, 0),
        hidden(gradient_mesh(3, 3, 6), 0, 0),
    ];
    let _ = prepare(&mut layer, &meshes);

    assert_eq!(layer.render(&meshes), vec![]);
}

#[test]
fn one_pixel_is_enough() {
    let mut layer = layer();
    let meshes = [hidden(solid_mesh(1, 3, 6), 1, 1)];
    let _ = prepare(&mut layer, &meshes);

    assert_eq!(layer.render(&meshes).len(), 6);
}

#[test]
fn hidden_meshes_of_the_other_kind_do_not_matter() {
    let mut layer = layer();
    let meshes = [
        solid_mesh(1, 3, 6),
        hidden(gradient_mesh(2, 3, 6), 0, 0),
        solid_mesh(3, 3, 6),
    ];
    let _ = prepare(&mut layer, &meshes);

    assert_eq!(
        layer.render(&meshes)[6..],
        [
            Draw::SetScissorRect(VISIBLE),
            group(Kind::Solid, 256),
            vertices(Kind::Solid, 72),
            indices(48),
            draw(6),
        ],
    );
}

#[test]
fn hidden_meshes_do_not_count_among_their_kind() {
    let mut layer = layer();
    let meshes = [hidden(solid_mesh(1, 3, 6), 0, 0), solid_mesh(2, 4, 3)];
    let _ = prepare(&mut layer, &meshes);

    assert_eq!(
        layer.render(&meshes),
        vec![
            Draw::SetScissorRect(VISIBLE),
            Draw::SetPipeline(Kind::Solid),
            group(Kind::Solid, 0),
            vertices(Kind::Solid, 0),
            indices(24),
            draw(3),
        ],
    );
}

#[test]
fn layers_know_what_they_can_render() {
    let mut layer = layer();
    let _ = prepare(&mut layer, &[solid_mesh(1, 3, 6), gradient_mesh(2, 3, 6)]);

    assert!(layer.can_render(&[]));
    assert!(layer.can_render(&[solid_mesh(1, 3, 6)]));
    assert!(layer.can_render(&[gradient_mesh(1, 3, 6), solid_mesh(1, 3, 6)]));
    assert!(!layer.can_render(&[solid_mesh(1, 3, 6), solid_mesh(1, 3, 6)]));
    assert!(!layer.can_render(&[gradient_mesh(1, 3, 6), gradient_mesh(1, 3, 6)]));
    assert!(!layer.can_render(&[
        solid_mesh(1, 3, 6),
        gradient_mesh(1, 3, 6),
        gradient_mesh(1, 3, 6),
    ]));
    assert!(layer.can_render(&[
        solid_mesh(1, 3, 6),
        gradient_mesh(1, 3, 6),
        hidden(gradient_mesh(1, 3, 6), 0, 0),
    ]));
}

#[test]
fn long_index_lists_are_cut_to_a_word() {
    if usize::BITS == 64 {
        let mut layer = layer();
        let meshes = [solid_mesh(1, 3, (1usize << 32) + 7)];
        let _ = prepare(&mut layer, &meshes);

        assert_eq!(layer.index_strides, vec![7]);
        assert_eq!(layer.index_buffer.raw.size, (1u64 << 34) + 28);
    }
}
