use triangle::antialiasing::{Antialiasing, ScaleFactor, MSAA};
use triangle::command::{Contents, Slot, Upload};
use triangle::mesh::{Indexed, Kind, Mesh, Rectangle, Transformation};
use triangle::pipeline::{Platform, Size, Target, TextureFormatFeatures};
use triangle::resource::{BindGroup, BufferDescriptor};
use triangle::{gradient, solid, Layer, Pipeline, State};

const FORMAT: wgpu::TextureFormat = wgpu::TextureFormat::Rgba8Unorm;

#[derive(Default)]
struct Device {
    buffers: Vec<(Slot, BufferDescriptor)>,
    groups: Vec<(Kind, BindGroup)>,
}

impl Device {
    fn buffer(&self, slot: Slot) -> BufferDescriptor {
        self.buffers.iter().find(|entry| entry.0 == slot).expect("a buffer").1
    }

    fn group(&self, kind: Kind) -> BindGroup {
        self.groups.iter().find(|entry| entry.0 == kind).expect("a bind group").1
    }

    fn upload(&mut self, meshes: &[Mesh], upload: &Upload) {
        match *upload {
            Upload::CreateBuffer { slot, buffer } => {
                self.buffers.retain(|entry| entry.0 != slot);
                self.buffers.push((slot, buffer));
            }
            Upload::CreateBindGroup { kind, group } => {
                assert_eq!(group.buffer, self.buffer(Slot::Uniforms(kind)));
                self.groups.retain(|entry| entry.0 != kind);
                self.groups.push((kind, group));
            }
            Upload::Write { slot, offset, contents } => {
                let size = match contents {
                    Contents::Indices(i) => 4 * meshes[i].buffers().indices,
                    Contents::Vertices(i) => match meshes[i].kind() {
                        Kind::Solid => 24 * meshes[i].buffers().vertices,
                        Kind::Gradient => 104 * meshes[i].buffers().vertices,
                    },
                    Contents::Uniforms(_) => 256,
                };

                assert!(offset + size as u64 <= self.buffer(slot).size);
                if matches!(slot, Slot::Uniforms(_)) {
                    assert_eq!(offset % 256, 0);
                }
            }
        }
    }

    fn assert_mirrors(&self, layer: &Layer) {
        assert_eq!(self.buffer(Slot::Indices), layer.index_buffer.raw);
        assert_eq!(self.buffer(Slot::Vertices(Kind::Solid)), layer.solid.vertices.raw);
        assert_eq!(self.buffer(Slot::Uniforms(Kind::Solid)), layer.solid.uniforms.raw);
        assert_eq!(self.buffer(Slot::Vertices(Kind::Gradient)), layer.gradient.vertices.raw);
        assert_eq!(self.buffer(Slot::Uniforms(Kind::Gradient)), layer.gradient.uniforms.raw);
        assert_eq!(self.group(Kind::Solid), layer.solid.constants);
        assert_eq!(self.group(Kind::Gradient), layer.gradient.constants);
    }
}

fn mesh(kind: Kind, vertices: usize, indices: usize) -> Mesh {
    let buffers = Indexed { vertices, indices };
    let transformation = Transformation { bits: [0; 16] };
    let clip_bounds = Rectangle { x: 0, y: 0, width: 1, height: 1 };

    match kind {
        Kind::Solid => Mesh::Solid { buffers, transformation, clip_bounds },
        Kind::Gradient => Mesh::Gradient { buffers, transformation, clip_bounds },
    }
}

#[test]
fn uploads_keep_a_device_in_step() {
    let solid = solid::Pipeline::new(FORMAT, None);
    let gradient = gradient::Pipeline::new(FORMAT, None, false);
    let mut layer = Layer::new(&solid, &gradient);
    let mut device = Device::default();

    for upload in &layer.creations() {
        device.upload(&[], upload);
    }
    device.assert_mirrors(&layer);

    let frames = [
        vec![],
        vec![mesh(Kind::Solid, 3, 6)],
        vec![mesh(Kind::Solid, 900, 999), mesh(Kind::Gradient, 100, 1)],
        vec![mesh(Kind::Solid, 900, 999), mesh(Kind::Solid, 101, 2)],
        vec![mesh(Kind::Gradient, 4, 6); 9],
        vec![mesh(Kind::Gradient, 400, 600); 3],
        vec![mesh(Kind::Solid, 1, 1)],
    ];

    for meshes in &frames {
        for upload in &layer.prepare(&solid, &gradient, meshes) {
            device.upload(meshes, upload);
        }
        device.assert_mirrors(&layer);
        assert!(layer.can_render(meshes));
    }

    assert_eq!(layer.solid.vertices.raw.size, 24 * 1_001);
    assert_eq!(layer.gradient.vertices.raw.size, 104 * 1_200);
    assert_eq!(layer.index_buffer.raw.size, 4 * 1_800);
    assert_eq!(layer.solid.uniforms.raw.size, 512);
    assert_eq!(layer.gradient.uniforms.raw.size, 256 * 9);
}

#[test]
fn data_of_meshes_does_not_overlap() {
    let solid = solid::Pipeline::new(FORMAT, None);
    let gradient = gradient::Pipeline::new(FORMAT, None, false);
    let mut layer = Layer::new(&solid, &gradient);
    let meshes = [mesh(Kind::Solid, 10, 30), mesh(Kind::Solid, 0, 0), mesh(Kind::Solid, 5, 7)];
    let _ = layer.prepare(&solid, &gradient, &meshes);

    assert_eq!(layer.index_buffer.offsets, vec![0, 120, 120]);
    assert_eq!(layer.solid.vertices.offsets, vec![0, 240, 240]);
    assert_eq!(layer.solid.uniforms.offsets, vec![0, 256, 512]);
}

#[test]
fn everything_samples_alike() {
    let mut pipeline = Pipeline::new(
        FORMAT,
        TextureFormatFeatures {
            allowed_usages: 0,
            flags: wgpu::TextureFormatFeatureFlags::all().bits(),
        },
        Platform { macos: true, gamma_correction: false },
    );
    let target = Target {
        scale_factor: ScaleFactor { bits: 1.0f64.to_bits() },
        physical_size: Size { width: 1, height: 1 },
    };

    for antialiasing in [
        Antialiasing::Disabled,
        Antialiasing::MSAA(MSAA::X2),
        Antialiasing::MSAA(MSAA::X16),
        Antialiasing::Automatic,
    ] {
        let _ = pipeline.prepare(antialiasing, &target, &[]);
        pipeline.end_frame();

        match pipeline.state() {
            State::Unused => panic!("nothing is ready"),
            State::Ready { blit, solid, gradient } => {
                let count = match blit {
                    None => 1,
                    Some(blit) => blit.strategy().sample_count(),
                };

                assert_eq!(solid.pipeline.multisample.count, count);
                assert_eq!(gradient.pipeline.multisample.count, count);
                assert_eq!(solid.pipeline.target.format, FORMAT);
                assert_eq!(gradient.pipeline.target.format, FORMAT);
            }
        }
    }
}
