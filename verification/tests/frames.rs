use triangle::antialiasing::{Antialiasing, ScaleFactor, MSAA};
use triangle::command::Upload;
use triangle::mesh::{Indexed, Mesh, Rectangle, Transformation};
use triangle::msaa::Blit;
use triangle::pipeline::{
    Attachment, LoadOp, Platform, Prepared, RenderPass, Size, StoreOp, Target,
    TextureFormatFeatures,
};
use triangle::{gradient, solid, Layer, Pipeline, State};

const FORMAT: wgpu::TextureFormat = wgpu::TextureFormat::Bgra8UnormSrgb;

const PLATFORM: Platform = Platform { macos: false, gamma_correction: true };

const SIZE: Size = Size { width: 800, height: 600 };

fn pipeline() -> Pipeline {
    Pipeline::new(
        FORMAT,
        TextureFormatFeatures {
            allowed_usages: wgpu::TextureUsages::RENDER_ATTACHMENT.bits(),
            flags: (wgpu::TextureFormatFeatureFlags::MULTISAMPLE_X4
                | wgpu::TextureFormatFeatureFlags::MULTISAMPLE_X8)
                .bits(),
        },
        PLATFORM,
    )
}

fn target(scale_factor: f64) -> Target {
    Target { scale_factor: ScaleFactor { bits: scale_factor.to_bits() }, physical_size: SIZE }
}

fn mesh(vertices: usize) -> Mesh {
    Mesh::Solid {
        buffers: Indexed { vertices, indices: vertices },
        transformation: Transformation { bits: [1; 16] },
        clip_bounds: Rectangle { x: 0, y: 0, width: 10, height: 10 },
    }
}

fn prepare(pipeline: &mut Pipeline, antialiasing: Antialiasing, meshes: &[Mesh]) -> Prepared {
    pipeline.prepare(antialiasing, &target(1.0), meshes).expect("a prepared layer")
}

fn strategy(pipeline: &Pipeline) -> Option<MSAA> {
    match pipeline.state() {
        State::Unused => panic!("nothing is ready"),
        State::Ready { blit, .. } => blit.map(|blit| blit.strategy()),
    }
}

fn ready(msaa: Option<MSAA>) -> State {
    State::Ready {
        blit: msaa.map(|msaa| Blit::new(FORMAT, msaa)),
        solid: solid::Pipeline::new(FORMAT, msaa),
        gradient: gradient::Pipeline::new(FORMAT, msaa, PLATFORM.gamma_correction),
    }
}

#[test]
fn new_pipelines_are_unused() {
    let pipeline = pipeline();

    assert_eq!(*pipeline.state(), State::Unused);
    assert_eq!(pipeline.render(&target(1.0), 0, &[mesh(3)]), None);
    assert!(!pipeline.can_render(0, &[]));
}

#[test]
fn the_first_layer_compiles() {
    let mut pipeline = pipeline();
    let prepared = prepare(&mut pipeline, Antialiasing::MSAA(MSAA::X8), &[mesh(3)]);

    assert!(prepared.compiled);
    assert!(prepared.created);
    assert_eq!(prepared.layer, 0);
    assert_eq!(*pipeline.state(), ready(Some(MSAA::X8)));

    let fresh = Layer::new(
        &solid::Pipeline::new(FORMAT, Some(MSAA::X8)),
        &gradient::Pipeline::new(FORMAT, Some(MSAA::X8), true),
    );
    assert_eq!(prepared.uploads[..7], fresh.creations()[..]);
    assert_eq!(prepared.uploads.len(), 10);
    assert!(prepared.uploads[7..].iter().all(|upload| matches!(upload, Upload::Write { .. })));
}

#[test]
fn compiling_twice_is_compiling_once() {
    let mut pipeline = pipeline();

    assert!(pipeline.compile(Antialiasing::MSAA(MSAA::X8), &target(1.0)));
    assert_eq!(*pipeline.state(), ready(Some(MSAA::X8)));
    assert!(!pipeline.compile(Antialiasing::MSAA(MSAA::X8), &target(1.0)));
    assert_eq!(*pipeline.state(), ready(Some(MSAA::X8)));
    assert!(pipeline.compile(Antialiasing::Disabled, &target(1.0)));
    assert_eq!(*pipeline.state(), ready(None));
    assert!(!pipeline.compile(Antialiasing::Disabled, &target(3.0)));
}

#[test]
fn compiling_for_another_strategy_drops_the_layers() {
    let mut pipeline = pipeline();

    let _ = prepare(&mut pipeline, Antialiasing::Disabled, &[mesh(3)]);
    assert!(!pipeline.compile(Antialiasing::Disabled, &target(1.0)));
    assert!(pipeline.can_render(0, &[mesh(3)]));
    assert!(pipeline.compile(Antialiasing::MSAA(MSAA::X4), &target(1.0)));
    assert!(!pipeline.can_render(0, &[mesh(3)]));

    let prepared = prepare(&mut pipeline, Antialiasing::MSAA(MSAA::X4), &[mesh(3)]);
    assert_eq!(prepared.layer, 0);
    assert!(prepared.created);
    assert!(!prepared.compiled);
}

#[test]
fn unsupported_strategies_are_replaced() {
    let mut pipeline = pipeline();

    let _ = prepare(&mut pipeline, Antialiasing::MSAA(MSAA::X16), &[]);
    assert_eq!(strategy(&pipeline), Some(MSAA::X4));
}

#[test]
fn the_scale_factor_decides() {
    let mut pipeline = pipeline();

    let _ = pipeline.prepare(Antialiasing::Automatic, &target(2.0), &[]);
    assert_eq!(strategy(&pipeline), Some(MSAA::X4));
    pipeline.end_frame();
    let _ = pipeline.prepare(Antialiasing::Automatic, &target(2.5), &[]);
    assert_eq!(strategy(&pipeline), None);
}

#[test]
fn layers_are_reused_in_the_next_frame() {
    let mut pipeline = pipeline();
    let antialiasing = Antialiasing::MSAA(MSAA::X4);

    for layer in 0..3 {
        let prepared = prepare(&mut pipeline, antialiasing, &[mesh(3)]);
        assert_eq!(prepared.layer, layer);
        assert_eq!(prepared.compiled, layer == 0);
        assert!(prepared.created);
    }

    pipeline.end_frame();

    for layer in 0..4 {
        let prepared = prepare(&mut pipeline, antialiasing, &[mesh(3)]);
        assert_eq!(prepared.layer, layer);
        assert!(!prepared.compiled);
        assert_eq!(prepared.created, layer == 3);
    }
}

#[test]
fn another_strategy_starts_over() {
    let mut pipeline = pipeline();

    let _ = prepare(&mut pipeline, Antialiasing::MSAA(MSAA::X4), &[mesh(3)]);
    let _ = prepare(&mut pipeline, Antialiasing::MSAA(MSAA::X4), &[mesh(3)]);
    pipeline.end_frame();

    let prepared = prepare(&mut pipeline, Antialiasing::Disabled, &[mesh(3)]);
    assert!(prepared.compiled);
    assert!(prepared.created);
    assert_eq!(prepared.layer, 0);
    assert_eq!(*pipeline.state(), ready(None));
    assert!(pipeline.can_render(0, &[mesh(3)]));
    assert!(!pipeline.can_render(1, &[mesh(3)]));
}

#[test]
fn the_strategy_stays_within_a_frame() {
    let mut pipeline = pipeline();

    let _ = prepare(&mut pipeline, Antialiasing::MSAA(MSAA::X4), &[mesh(3)]);
    let prepared = prepare(&mut pipeline, Antialiasing::Disabled, &[mesh(3)]);

    assert!(!prepared.compiled);
    assert_eq!(prepared.layer, 1);
    assert_eq!(strategy(&pipeline), Some(MSAA::X4));
}

#[test]
fn later_layers_leave_earlier_ones_alone() {
    let mut pipeline = pipeline();

    let _ = prepare(&mut pipeline, Antialiasing::Disabled, &[mesh(3), mesh(6)]);
    let before = pipeline.render(&target(1.0), 0, &[mesh(3), mesh(6)]);
    let _ = prepare(&mut pipeline, Antialiasing::Disabled, &[mesh(2_000)]);

    assert_eq!(pipeline.render(&target(1.0), 0, &[mesh(3), mesh(6)]), before);
}

#[test]
fn without_multisampling_the_frame_is_drawn_to() {
    let mut pipeline = pipeline();
    let _ = prepare(&mut pipeline, Antialiasing::Disabled, &[mesh(3)]);
    let rendering = pipeline.render(&target(1.0), 0, &[mesh(3)]).expect("a rendering");

    assert_eq!(rendering.targets, None);
    assert_eq!(
        rendering.pass,
        RenderPass {
            label: "iced_wgpu.triangle.render_pass",
            view: Attachment::Frame,
            resolve_target: None,
            load: LoadOp::Load,
            store: StoreOp::Store,
        },
    );
    assert_eq!(rendering.commands.len(), 6);
    assert!(!rendering.draw_blit);
}

#[test]
fn with_multisampling_the_blit_is_drawn_to() {
    let mut pipeline = pipeline();
    let _ = prepare(&mut pipeline, Antialiasing::MSAA(MSAA::X4), &[mesh(3)]);
    let rendering = pipeline.render(&target(1.0), 0, &[mesh(3)]).expect("a rendering");

    assert_eq!(rendering.targets, Some(SIZE));
    assert_eq!(
        rendering.pass,
        RenderPass {
            label: "iced_wgpu.triangle.render_pass",
            view: Attachment::Multisampled,
            resolve_target: Some(Attachment::Resolved),
            load: LoadOp::ClearTransparent,
            store: StoreOp::Store,
        },
    );
    assert_eq!(rendering.commands.len(), 6);
    assert!(rendering.draw_blit);
}
