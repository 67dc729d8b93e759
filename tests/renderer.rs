use raytracer::frame::{
    classify_surface_error, AcquireOutcome, FrameCommand, LoadAction, RayTracer, SetupError, State, StoreAction,
    WindowInput,
};
use raytracer::geometry::{Material, Rgba, Vertex};
use raytracer::pipeline::{
    material_binding, vertex_layout, AttributeFormat, Blend, Cull, PipelineDesc, PolygonFill, StepMode, Topology,
    Visibility,
    FRAGMENT_ENTRY_POINT, VERTEX_ENTRY_POINT,
};
use raytracer::surface::{SurfaceSetupError, SurfaceUsage, MAX_FRAME_LATENCY};
use wgpu::{CompositeAlphaMode, PresentMode, SurfaceError, TextureFormat};

fn triangle() -> Vec<Vertex> {
    [[0.0f32, 0.5, 0.0], [-0.5, -0.5, 0.0], [0.5, -0.5, 0.0]]
        .iter()
        .map(|p| Vertex { x: p[0].to_bits(), y: p[1].to_bits(), z: p[2].to_bits() })
        .collect()
}

fn one_material() -> Vec<Material> {
    let c = Rgba { r: 1.0f32.to_bits(), g: 0, b: 0, a: 1.0f32.to_bits() };
    let z = Rgba { r: 0, g: 0, b: 0, a: 0 };
    vec![Material { ambient: c, diffuse: z, specular: z }]
}

fn state(materials: &Vec<Material>) -> State {
    State::new(
        640,
        480,
        &vec![TextureFormat::Rgba8Unorm, TextureFormat::Rgba8UnormSrgb],
        &vec![PresentMode::Fifo],
        &vec![CompositeAlphaMode::Opaque],
        &triangle(),
        materials,
    )
    .unwrap()
}

fn ready(materials: &Vec<Material>) -> RayTracer {
    let mut rt = RayTracer::new();
    let cmds = rt.resumed(state(materials));
    assert_eq!(cmds.len(), 1);
    rt
}

fn configured_size(c: &FrameCommand) -> Option<(u32, u32)> {
    match c {
        FrameCommand::Configure(cfg) => Some((cfg.width(), cfg.height())),
        _ => None,
    }
}

#[test]
fn pipeline_layout_is_fixed() {
    let l = vertex_layout();
    assert_eq!(l.array_stride, 12);
    assert_eq!(l.step_mode, StepMode::PerVertex);
    assert_eq!(l.attribute.format, AttributeFormat::Float32x3);
    assert_eq!((l.attribute.offset, l.attribute.shader_location), (0, 0));
    let b = material_binding();
    assert_eq!(b.binding, 0);
    assert_eq!(b.visibility, Visibility::FragmentStage);
    assert!(b.read_only_storage && !b.has_dynamic_offset);
    assert_eq!(b.min_binding_size, None);
    assert_eq!(b.count, None);
    assert!(b.binds_whole_buffer);
    assert_eq!((VERTEX_ENTRY_POINT, FRAGMENT_ENTRY_POINT), ("vs_main", "fs_main"));
}

#[test]
fn pipeline_with_and_without_materials() {
    let p = PipelineDesc::new(TextureFormat::Bgra8UnormSrgb, true);
    assert_eq!(p.blend, Blend::AlphaBlending);
    assert!(p.material_binding.is_some());
    assert_eq!(p.color_format, TextureFormat::Bgra8UnormSrgb);
    assert_eq!(p.cull, Cull::BackFaces);
    assert!(p.counter_clockwise_front);
    assert_eq!(p.sample_count, 1);
    assert_eq!(p.sample_mask, u64::MAX);
    assert!(!p.alpha_to_coverage);
    assert_eq!(p.topology, Topology::TriangleList);
    assert!(!p.strip_index_format);
    assert_eq!(p.polygon_fill, PolygonFill::Fill);
    assert!(!p.depth_stencil);
    assert!(p.write_all_channels);
    assert_eq!(p.push_constant_ranges, 0);
    let q = PipelineDesc::new(TextureFormat::Rgba8Unorm, false);
    assert_eq!(q.blend, Blend::Replace);
    assert!(q.material_binding.is_none());
}

#[test]
fn state_shares_format_between_pipeline_and_surface() {
    let s = state(&one_material());
    assert_eq!(s.config().format(), TextureFormat::Rgba8UnormSrgb);
    assert_eq!(s.pipeline().color_format, s.config().format());
    assert_eq!(s.num_vertices(), 3);
    assert_eq!((s.config().width(), s.config().height()), (640, 480));
    assert_eq!(s.config().usage(), SurfaceUsage::RenderAttachment);
    assert_eq!(s.config().max_frame_latency(), MAX_FRAME_LATENCY);
}

#[test]
fn state_setup_errors() {
    let f = vec![TextureFormat::Rgba8Unorm];
    let p = vec![PresentMode::Fifo];
    let a = vec![CompositeAlphaMode::Opaque];
    let e = State::new(0, 480, &f, &p, &a, &triangle(), &vec![]).err().unwrap();
    assert_eq!(e, SetupError::Surface(SurfaceSetupError::ZeroSize));
    let e = State::new(640, 480, &vec![], &p, &a, &triangle(), &vec![]).err().unwrap();
    assert_eq!(e, SetupError::Surface(SurfaceSetupError::NoFormat));
    let e = State::new(640, 480, &f, &vec![], &a, &triangle(), &vec![]).err().unwrap();
    assert_eq!(e, SetupError::Surface(SurfaceSetupError::NoPresentMode));
    let e = State::new(640, 480, &f, &p, &vec![], &triangle(), &vec![]).err().unwrap();
    assert_eq!(e, SetupError::Surface(SurfaceSetupError::NoAlphaMode));
}

#[test]
fn uninitialized_ignores_events() {
    let mut rt = RayTracer::new();
    assert!(!rt.is_ready());
    assert!(rt.get_state().is_none());
    assert!(rt.window_event(WindowInput::RedrawRequested).is_empty());
    assert!(rt.window_event(WindowInput::PointerMoved).is_empty());
    assert!(rt.window_event(WindowInput::Resized { width: 10, height: 10 }).is_empty());
    assert!(rt.frame_acquired(AcquireOutcome::Lost).is_empty());
    let cmds = rt.window_event(WindowInput::CloseRequested);
    assert!(matches!(cmds.as_slice(), [FrameCommand::Exit]));
}

#[test]
fn resumed_configures_once() {
    let mut rt = RayTracer::new();
    let cmds = rt.resumed(state(&vec![]));
    assert_eq!(cmds.len(), 1);
    assert_eq!(configured_size(&cmds[0]), Some((640, 480)));
    assert!(rt.is_ready());
}

#[test]
fn resize_reconfigures_exactly_once() {
    let mut rt = ready(&vec![]);
    let cmds = rt.window_event(WindowInput::Resized { width: 1280, height: 720 });
    assert_eq!(cmds.len(), 1);
    assert_eq!(configured_size(&cmds[0]), Some((1280, 720)));
    let cfg = rt.get_state().unwrap().config();
    assert_eq!((cfg.width(), cfg.height()), (1280, 720));
    assert_eq!(cfg.format(), TextureFormat::Rgba8UnormSrgb);
}

#[test]
fn zero_resize_changes_nothing() {
    let mut rt = ready(&vec![]);
    assert!(rt.window_event(WindowInput::Resized { width: 0, height: 720 }).is_empty());
    assert!(rt.window_event(WindowInput::Resized { width: 1280, height: 0 }).is_empty());
    let cfg = rt.get_state().unwrap().config();
    assert_eq!((cfg.width(), cfg.height()), (640, 480));
}

#[test]
fn pointer_move_uses_surface_size() {
    let mut rt = ready(&vec![]);
    let cmds = rt.window_event(WindowInput::PointerMoved);
    assert!(matches!(cmds.as_slice(), [FrameCommand::SetClearColorFromPointer { width: 640, height: 480 }]));
    rt.window_event(WindowInput::Resized { width: 200, height: 100 });
    let cmds = rt.window_event(WindowInput::PointerMoved);
    assert!(matches!(cmds.as_slice(), [FrameCommand::SetClearColorFromPointer { width: 200, height: 100 }]));
    assert!(rt.get_state().unwrap().input(&WindowInput::CloseRequested).is_none());
}

#[test]
fn close_and_other_events() {
    let mut rt = ready(&vec![]);
    assert!(rt.window_event(WindowInput::Other).is_empty());
    let cmds = rt.window_event(WindowInput::CloseRequested);
    assert!(matches!(cmds.as_slice(), [FrameCommand::Exit]));
}

#[test]
fn redraw_requests_next_frame_and_acquires() {
    let mut rt = ready(&vec![]);
    let cmds = rt.window_event(WindowInput::RedrawRequested);
    assert!(matches!(cmds.as_slice(), [FrameCommand::RequestRedraw, FrameCommand::AcquireFrame]));
}

#[test]
fn acquired_frame_draws_once_with_materials() {
    let mut rt = ready(&one_material());
    let cmds = rt.frame_acquired(AcquireOutcome::Acquired);
    assert!(matches!(
        cmds.as_slice(),
        [
            FrameCommand::BeginPass {
                color_attachments: 1,
                load: LoadAction::ClearToClearColor,
                store: StoreAction::Store,
                resolve_target: false,
                depth_stencil: false,
            },
            FrameCommand::SetPipeline,
            FrameCommand::SetMaterialBindGroup { index: 0 },
            FrameCommand::SetVertexBuffer { slot: 0 },
            FrameCommand::Draw { vertices: 3, instances: 1 },
            FrameCommand::EndPass,
            FrameCommand::Submit,
            FrameCommand::Present,
        ]
    ));
}

#[test]
fn acquired_frame_without_materials_skips_binding() {
    let mut rt = ready(&vec![]);
    let cmds = rt.frame_acquired(AcquireOutcome::Acquired);
    assert_eq!(cmds.len(), 7);
    assert!(!cmds.iter().any(|c| matches!(c, FrameCommand::SetMaterialBindGroup { .. })));
    assert_eq!(cmds.iter().filter(|c| matches!(c, FrameCommand::Draw { .. })).count(), 1);
    assert_eq!(cmds.iter().filter(|c| matches!(c, FrameCommand::Submit)).count(), 1);
}

#[test]
fn lost_or_outdated_reconfigures_once() {
    for outcome in [AcquireOutcome::Lost, AcquireOutcome::Outdated] {
        let mut rt = ready(&one_material());
        rt.window_event(WindowInput::Resized { width: 300, height: 200 });
        let cmds = rt.frame_acquired(outcome);
        assert_eq!(cmds.len(), 1);
        assert_eq!(configured_size(&cmds[0]), Some((300, 200)));
        assert!(!cmds.iter().any(|c| matches!(c, FrameCommand::Draw { .. } | FrameCommand::Submit)));
    }
}

#[test]
fn out_of_memory_is_fatal() {
    for outcome in [AcquireOutcome::OutOfMemory, AcquireOutcome::Other] {
        let mut rt = ready(&one_material());
        let cmds = rt.frame_acquired(outcome);
        assert!(matches!(cmds.as_slice(), [FrameCommand::Fatal]));
    }
}

#[test]
fn timeout_only_warns() {
    let mut rt = ready(&vec![]);
    let cmds = rt.frame_acquired(AcquireOutcome::Timeout);
    assert!(matches!(cmds.as_slice(), [FrameCommand::WarnTimeout]));
    let cfg = rt.get_state().unwrap().config();
    assert_eq!((cfg.width(), cfg.height()), (640, 480));
}

#[test]
fn surface_errors_are_classified() {
    assert_eq!(classify_surface_error(&SurfaceError::Timeout), AcquireOutcome::Timeout);
    assert_eq!(classify_surface_error(&SurfaceError::Outdated), AcquireOutcome::Outdated);
    assert_eq!(classify_surface_error(&SurfaceError::Lost), AcquireOutcome::Lost);
    assert_eq!(classify_surface_error(&SurfaceError::OutOfMemory), AcquireOutcome::OutOfMemory);
    assert_eq!(classify_surface_error(&SurfaceError::Other), AcquireOutcome::Other);
}

#[test]
fn default_tracer_waits_for_window() {
    let mut rt = RayTracer::default();
    assert!(!rt.is_ready());
    assert!(rt.frame_acquired(AcquireOutcome::Acquired).is_empty());
}

#[test]
fn second_resume_keeps_running_state() {
    let mut rt = ready(&vec![]);
    rt.window_event(WindowInput::Resized { width: 320, height: 240 });
    let cmds = rt.resumed(state(&one_material()));
    assert!(cmds.is_empty());
    let s = rt.get_state().unwrap();
    assert_eq!((s.config().width(), s.config().height()), (320, 240));
    assert!(s.pipeline().material_binding.is_none());
}
