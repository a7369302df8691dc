use wgpu_scene::camera::Orientation;
use wgpu_scene::error::SetupError;
use wgpu_scene::frame::{AcquireOutcome, FrameAction, FrameCounters, FrameError, classify_acquire};
use wgpu_scene::geometry::{Geometry, IndexData, IndexFormat, pack_indices};
use wgpu_scene::input::{InputEvent, Key, MovementKeys};
use wgpu_scene::instance::{InstanceSet, RotationAxis};
use wgpu_scene::pass::{
    BindGroupRef, MeshDraw, PassOptions, PipelineKind, RenderCommand, VertexBufferRef, plan_pass,
};
use wgpu_scene::projection::CameraProjection;
use wgpu_scene::state::{FramePlan, SceneConfig, State};
use wgpu_scene::surface::{DepthTarget, PresentMode, configure_surface};
use wgpu_scene::vertex::{StepMode, VertexFormat, instance_layout, model_vertex_layout};

fn all_on() -> PassOptions {
    PassOptions { light_pass: true, lighting: true, instanced: true }
}

fn scene(width: u32, height: u32) -> SceneConfig {
    SceneConfig {
        width,
        height,
        fovy: 45_000,
        znear: 100_000,
        zfar: 100_000_000,
        yaw: -90_000,
        pitch: -20_000,
        per_row: 10,
        spacing: 3_000_000,
        spin_rate: 60_000,
        options: all_on(),
    }
}

fn one_mesh() -> Vec<MeshDraw> {
    vec![MeshDraw { index_count: 36, index_format: IndexFormat::Uint32, material: 0 }]
}

fn state(width: u32, height: u32) -> State<wgpu::TextureFormat> {
    let formats = vec![wgpu::TextureFormat::Bgra8UnormSrgb, wgpu::TextureFormat::Rgba8Unorm];
    State::new(&formats, scene(width, height), one_mesh(), 1).unwrap()
}

fn aspect(p: &CameraProjection) -> f64 {
    p.aspect_width as f64 / p.aspect_height as f64
}

#[test]
fn scenario_construct_and_resize_keeps_ratio_but_recomputes() {
    let mut s = state(800, 600);
    let p = s.projection();
    assert!((aspect(&p) - 800.0 / 600.0).abs() < 1e-6);
    assert!((aspect(&p) - 1.3333).abs() < 1e-4);
    assert_eq!((p.fovy, p.znear, p.zfar), (45_000, 100_000, 100_000_000));
    assert!(s.update(16_000));
    assert!(!s.update(16_000));
    assert!(s.resize(400, 300));
    let q = s.projection();
    assert!((aspect(&q) - 400.0 / 300.0).abs() < 1e-6);
    assert!((aspect(&q) - aspect(&p)).abs() < 1e-6);
    assert!(q.recompute);
    assert!(s.update(16_000));
    assert!(!s.projection().recompute);
}

#[test]
fn scenario_two_by_two_grid_is_symmetric() {
    let set = InstanceSet::new(2, 3_000_000, 0).unwrap();
    assert_eq!(set.count(), 4);
    let mut positions: Vec<(f64, f64)> = Vec::new();
    for k in 0..4 {
        let (x2, z2) = set.doubled_position(k);
        positions.push((x2 as f64 / 2e6, z2 as f64 / 2e6));
    }
    let expected = [(-1.5, -1.5), (-1.5, 1.5), (1.5, -1.5), (1.5, 1.5)];
    for e in expected.iter() {
        assert!(positions.iter().any(|p| (p.0 - e.0).abs() < 1e-9 && (p.1 - e.1).abs() < 1e-9));
    }
    for i in set.instances() {
        assert_eq!(i.axis, RotationAxis::Radial);
        assert_eq!(i.angle, 45_000_000);
    }
}

#[test]
fn scenario_three_lost_frames_then_one_rendered() {
    let mut s = state(800, 600);
    for _ in 0..3 {
        let r = s.render(AcquireOutcome::Lost);
        assert!(matches!(r, Ok(FramePlan::Reconfigure)));
        assert_eq!(s.reconfigure_surface().width, 800);
    }
    assert_eq!(s.counters().reconfigurations, 3);
    assert_eq!(s.counters().frames_rendered, 0);
    let r = s.render(AcquireOutcome::Ready);
    assert!(matches!(r, Ok(FramePlan::Draw(_))));
    assert_eq!(s.counters().reconfigurations, 3);
    assert_eq!(s.counters().frames_rendered, 1);
}

#[test]
fn resize_with_zero_dimension_changes_nothing() {
    let mut s = state(800, 600);
    let before = (s.surface_config().width, s.surface_config().height, s.depth_target(), s.projection());
    assert!(!s.resize(0, 500));
    assert!(!s.resize(500, 0));
    let after = (s.surface_config().width, s.surface_config().height, s.depth_target(), s.projection());
    assert_eq!(before, after);
}

#[test]
fn resize_sets_aspect_and_depth_only() {
    let mut s = state(800, 600);
    let p = s.projection();
    assert!(s.resize(1024, 768));
    let q = s.projection();
    assert!((aspect(&q) - 1024.0 / 768.0).abs() < 1e-6);
    assert_eq!((q.fovy, q.znear, q.zfar), (p.fovy, p.znear, p.zfar));
    assert_eq!(s.depth_target(), DepthTarget { width: 1024, height: 768 });
    assert_eq!(s.surface_config().format, wgpu::TextureFormat::Bgra8UnormSrgb);
    assert_eq!(s.surface_config().present_mode, PresentMode::Fifo);
}

#[test]
fn instance_count_kept_across_updates() {
    for n in 1..6u32 {
        let mut set = InstanceSet::new(n, 1_000_000, 90_000).unwrap();
        assert_eq!(set.instances().len() as u32, n * n);
        for _ in 0..7 {
            set.update(33_333);
            assert_eq!(set.instances().len() as u32, n * n);
            assert_eq!(set.count(), n * n);
        }
    }
}

#[test]
fn centre_instance_keeps_default_axis() {
    let mut set = InstanceSet::new(3, 2_000_000, 90_000).unwrap();
    let centre = set.instances()[4];
    assert_eq!((centre.offset_x, centre.offset_z), (0, 0));
    assert_eq!(centre.axis, RotationAxis::DefaultZ);
    assert_eq!(centre.angle, 0);
    for _ in 0..100 {
        set.update(1_000_000);
        assert_eq!(set.instances()[4].axis, RotationAxis::DefaultZ);
    }
    assert_eq!(set.instances()[0].axis, RotationAxis::Radial);
}

#[test]
fn update_spins_by_rate_times_time() {
    let mut set = InstanceSet::new(3, 2_000_000, 90_000).unwrap();
    set.update(1_000_000);
    assert_eq!(set.instances()[0].angle, 135_000_000);
    assert_eq!(set.instances()[4].angle, 90_000_000);
    set.update(3_000_000);
    assert_eq!(set.instances()[0].angle, 45_000_000);
}

#[test]
fn zero_spacing_puts_every_instance_on_the_default_axis() {
    let set = InstanceSet::new(2, 0, 0).unwrap();
    for i in set.instances() {
        assert_eq!(i.axis, RotationAxis::DefaultZ);
    }
}

#[test]
fn instance_grid_errors() {
    assert_eq!(InstanceSet::new(0, 1, 1).err(), Some(SetupError::EmptyInstanceGrid));
    assert_eq!(InstanceSet::new(65_536, 1, 1).err(), Some(SetupError::InstanceGridTooLarge));
}

#[test]
fn projection_errors() {
    assert_eq!(CameraProjection::new(0, 600, 45_000, 1, 2).err(), Some(SetupError::ZeroSurfaceSize));
    assert_eq!(CameraProjection::new(800, 600, 0, 1, 2).err(), Some(SetupError::InvalidFieldOfView));
    assert_eq!(
        CameraProjection::new(800, 600, 180_000, 1, 2).err(),
        Some(SetupError::InvalidFieldOfView)
    );
    assert_eq!(CameraProjection::new(800, 600, 45_000, 0, 2).err(), Some(SetupError::InvalidClipPlanes));
    assert_eq!(CameraProjection::new(800, 600, 45_000, 2, 2).err(), Some(SetupError::InvalidClipPlanes));
    assert!(CameraProjection::new(800, 600, 45_000, 1, 2).is_ok());
}

#[test]
fn state_setup_errors() {
    let formats = vec![wgpu::TextureFormat::Bgra8UnormSrgb];
    let none: Vec<wgpu::TextureFormat> = Vec::new();
    assert_eq!(
        State::new(&none, scene(800, 600), one_mesh(), 1).err(),
        Some(SetupError::NoSurfaceFormat)
    );
    assert_eq!(
        State::new(&formats, scene(800, 0), one_mesh(), 1).err(),
        Some(SetupError::ZeroSurfaceSize)
    );
    let mut c = scene(800, 600);
    c.zfar = c.znear;
    assert_eq!(State::new(&formats, c, one_mesh(), 1).err(), Some(SetupError::InvalidClipPlanes));
    let mut c = scene(800, 600);
    c.per_row = 0;
    assert_eq!(State::new(&formats, c, one_mesh(), 1).err(), Some(SetupError::EmptyInstanceGrid));
    assert_eq!(
        State::new(&formats, scene(800, 600), one_mesh(), 0).err(),
        Some(SetupError::MissingMaterial)
    );
}

#[test]
fn surface_configuration_picks_first_format_and_fifo() {
    let c = configure_surface(&vec![7u32, 3, 5], 640, 480).unwrap();
    assert_eq!((c.width, c.height, c.format), (640, 480, 7));
    assert_eq!(c.present_mode, PresentMode::Fifo);
    assert_eq!(configure_surface(&Vec::<u32>::new(), 640, 480).err(), Some(SetupError::NoSurfaceFormat));
    assert_eq!(configure_surface(&vec![1u32], 0, 480).err(), Some(SetupError::ZeroSurfaceSize));
}

#[test]
fn acquisition_outcomes_are_classified() {
    assert_eq!(classify_acquire(AcquireOutcome::Ready), Ok(FrameAction::Render));
    assert_eq!(classify_acquire(AcquireOutcome::Lost), Ok(FrameAction::ReconfigureAndSkip));
    assert_eq!(classify_acquire(AcquireOutcome::Outdated), Ok(FrameAction::SkipAndRetry));
    assert_eq!(classify_acquire(AcquireOutcome::Timeout), Ok(FrameAction::SkipAndRetry));
    assert_eq!(classify_acquire(AcquireOutcome::OutOfMemory), Err(FrameError::OutOfMemory));
    let mut c = FrameCounters::new();
    c.record(AcquireOutcome::Timeout);
    c.record(AcquireOutcome::OutOfMemory);
    assert_eq!((c.frames_rendered, c.reconfigurations, c.frames_skipped), (0, 0, 1));
}

#[test]
fn out_of_memory_is_fatal_in_render() {
    let mut s = state(800, 600);
    assert!(matches!(s.render(AcquireOutcome::OutOfMemory), Err(FrameError::OutOfMemory)));
    assert!(matches!(s.render(AcquireOutcome::Outdated), Ok(FramePlan::Skip)));
    assert_eq!(s.counters().frames_rendered, 0);
}

#[test]
fn pass_binds_in_order() {
    let meshes = one_mesh();
    let cmds = plan_pass(&meshes, all_on(), 100);
    let expected = vec![
        RenderCommand::SetPipeline(PipelineKind::Light),
        RenderCommand::SetBindGroup { slot: 0, group: BindGroupRef::Camera },
        RenderCommand::SetBindGroup { slot: 1, group: BindGroupRef::Light },
        RenderCommand::SetVertexBuffer { slot: 0, buffer: VertexBufferRef::Mesh(0) },
        RenderCommand::SetIndexBuffer { mesh: 0, format: IndexFormat::Uint32 },
        RenderCommand::DrawIndexed { index_count: 36, instance_count: 1 },
        RenderCommand::SetPipeline(PipelineKind::Main),
        RenderCommand::SetBindGroup { slot: 0, group: BindGroupRef::Material(0) },
        RenderCommand::SetBindGroup { slot: 1, group: BindGroupRef::Camera },
        RenderCommand::SetBindGroup { slot: 2, group: BindGroupRef::Light },
        RenderCommand::SetVertexBuffer { slot: 0, buffer: VertexBufferRef::Mesh(0) },
        RenderCommand::SetVertexBuffer { slot: 1, buffer: VertexBufferRef::Instances },
        RenderCommand::SetIndexBuffer { mesh: 0, format: IndexFormat::Uint32 },
        RenderCommand::DrawIndexed { index_count: 36, instance_count: 100 },
    ];
    assert_eq!(cmds, expected);
}

#[test]
fn pass_without_optional_parts() {
    let meshes = vec![
        MeshDraw { index_count: 9, index_format: IndexFormat::Uint16, material: 0 },
        MeshDraw { index_count: 6, index_format: IndexFormat::Uint16, material: 1 },
    ];
    let opts = PassOptions { light_pass: false, lighting: false, instanced: false };
    let cmds = plan_pass(&meshes, opts, 100);
    assert_eq!(cmds.len(), 11);
    assert_eq!(cmds[0], RenderCommand::SetPipeline(PipelineKind::Main));
    assert_eq!(cmds[5], RenderCommand::DrawIndexed { index_count: 9, instance_count: 1 });
    assert_eq!(cmds[6], RenderCommand::SetBindGroup { slot: 0, group: BindGroupRef::Material(1) });
    assert_eq!(cmds[10], RenderCommand::DrawIndexed { index_count: 6, instance_count: 1 });
}

#[test]
fn render_plan_draws_every_instance() {
    let mut s = state(800, 600);
    match s.render(AcquireOutcome::Ready) {
        Ok(FramePlan::Draw(cmds)) => {
            assert_eq!(cmds.last(), Some(&RenderCommand::DrawIndexed { index_count: 36, instance_count: 100 }));
        }
        _ => panic!("expected a draw"),
    }
}

#[test]
fn small_indices_pack_to_sixteen_bits() {
    let packed = pack_indices(&vec![0, 1, 4, 65_535]);
    match packed {
        IndexData::Uint16(v) => assert_eq!(v, vec![0u16, 1, 4, 65_535]),
        IndexData::Uint32(_) => panic!("expected 16-bit indices"),
    }
    let wide = pack_indices(&vec![0, 70_000, 2]);
    assert_eq!(wide.format(), IndexFormat::Uint32);
    match wide {
        IndexData::Uint32(v) => assert_eq!(v, vec![0u32, 70_000, 2]),
        IndexData::Uint16(_) => panic!("expected 32-bit indices"),
    }
}

#[test]
fn geometry_checks_indices() {
    let g = Geometry::new(5, &vec![0, 1, 4, 1, 2, 4, 2, 3, 4]).unwrap();
    assert_eq!(g.num_indices, 9);
    assert_eq!(g.index_format(), IndexFormat::Uint16);
    assert_eq!(Geometry::new(4, &vec![0, 1, 4]).err().map(|_| ()), Some(()));
    assert!(matches!(Geometry::new(4, &vec![0, 1, 4]), Err(SetupError::IndexOutOfRange)));
    let big = Geometry::new(100_000, &vec![0, 99_999, 5]).unwrap();
    assert_eq!(big.index_format(), IndexFormat::Uint32);
    let draw = MeshDraw::from_geometry(&big, 2);
    assert_eq!((draw.index_count, draw.index_format, draw.material), (3, IndexFormat::Uint32, 2));
}

#[test]
fn vertex_layouts_pack_attributes() {
    let m = model_vertex_layout();
    assert_eq!(m.array_stride, 56);
    assert_eq!(m.step_mode, StepMode::Vertex);
    let offsets: Vec<u64> = m.attributes.iter().map(|a| a.offset).collect();
    assert_eq!(offsets, vec![0, 12, 20, 32, 44]);
    let locations: Vec<u32> = m.attributes.iter().map(|a| a.shader_location).collect();
    assert_eq!(locations, vec![0, 1, 2, 3, 4]);
    assert_eq!(m.attributes[1].format, VertexFormat::Float32x2);
    let i = instance_layout();
    assert_eq!(i.array_stride, 64);
    assert_eq!(i.step_mode, StepMode::Instance);
    let offsets: Vec<u64> = i.attributes.iter().map(|a| a.offset).collect();
    assert_eq!(offsets, vec![0, 16, 32, 48]);
    let locations: Vec<u32> = i.attributes.iter().map(|a| a.shader_location).collect();
    assert_eq!(locations, vec![5, 6, 7, 8]);
}

#[test]
fn input_records_keys_and_mouse() {
    let mut s = state(800, 600);
    assert!(s.input(InputEvent::Key { key: Key::W, pressed: true }));
    assert!(s.movement().forward);
    assert!(s.input(InputEvent::Key { key: Key::W, pressed: false }));
    assert!(!s.movement().forward);
    assert!(!s.input(InputEvent::Key { key: Key::Escape, pressed: true }));
    assert!(s.input(InputEvent::Scroll));
    assert!(!s.mouse_pressed());
    assert!(s.input(InputEvent::MouseButton { left: true, pressed: true }));
    assert!(s.mouse_pressed());
    assert!(!s.input(InputEvent::MouseButton { left: false, pressed: false }));
    assert!(s.mouse_pressed());
    assert!(!s.input(InputEvent::Other));
    let mut keys = MovementKeys::new();
    assert!(keys.process_keyboard(Key::LShift, true));
    assert!(keys.down && !keys.up);
}

#[test]
fn pitch_is_clamped_and_yaw_wrapped() {
    let mut o = Orientation::new(-90_000, -20_000);
    assert_eq!((o.yaw, o.pitch), (270_000, -20_000));
    o.rotate(100_000, 200_000);
    assert_eq!((o.yaw, o.pitch), (10_000, 89_000));
    o.rotate(0, -500_000);
    assert_eq!(o.pitch, -89_000);
    let mut s = state(800, 600);
    s.process_mouse(0, 1_000_000);
    assert_eq!(s.orientation().pitch, 89_000);
}

#[test]
fn counters_follow_a_mixed_run_of_outcomes() {
    let mut c = FrameCounters::new();
    let run = [
        AcquireOutcome::Ready,
        AcquireOutcome::Lost,
        AcquireOutcome::Timeout,
        AcquireOutcome::Ready,
        AcquireOutcome::Outdated,
        AcquireOutcome::OutOfMemory,
        AcquireOutcome::Lost,
    ];
    for o in run {
        let _ = c.record(o);
    }
    assert_eq!(c.frames_rendered, 2);
    assert_eq!(c.reconfigurations, 2);
    assert_eq!(c.frames_skipped, 4);
}
