//! The renderer state: everything the frame loop keeps between frames, and
//! the rules by which resizing, input, updates and frames change it.

use vstd::prelude::*;
use crate::camera::Orientation;
use crate::error::SetupError;
use crate::frame::{AcquireOutcome, FrameAction, FrameCounters, FrameError, frame_response};
use crate::input::{InputEvent, MovementKeys, is_movement_key};
use crate::instance::{InstanceSet, Instance, MAX_PER_ROW, spin_all, spin_step};
use crate::pass::{MeshDraw, PassOptions, RenderCommand, pass_commands, plan_pass};
use crate::projection::{CameraProjection, valid_clip, valid_fovy};
use crate::surface::{DepthTarget, SurfaceConfig, configure_surface};

verus! {

/// What the renderer is built from, besides the surface's formats and the meshes.
#[derive(Clone, Copy, Debug, PartialEq, Eq, Structural)]
pub struct SceneConfig {
    /// Initial surface size, in pixels.
    pub width: u32,
    pub height: u32,
    /// Vertical field of view, in thousandths of a degree.
    pub fovy: u32,
    /// Clip distances, in millionths of a scene unit.
    pub znear: u64,
    pub zfar: u64,
    /// Initial camera yaw and pitch, in thousandths of a degree.
    pub yaw: i32,
    pub pitch: i32,
    /// Instances per row of the grid.
    pub per_row: u32,
    /// Distance between neighbouring instances, in millionths of a scene unit.
    pub spacing: u32,
    /// Instance spin rate, in thousandths of a degree per second.
    pub spin_rate: u32,
    pub options: PassOptions,
}

/// What the frame driver does with the current frame.
#[derive(Clone, Debug)]
pub enum FramePlan {
    /// Record these commands into one render pass, submit and present.
    Draw(Vec<RenderCommand>),
    /// Reconfigure the surface with its last valid configuration; draw nothing.
    Reconfigure,
    /// Draw nothing this tick.
    Skip,
}

/// Every mesh's material is one of the `material_count` materials.
pub open spec fn materials_exist(meshes: Seq<MeshDraw>, material_count: nat) -> bool {
    forall|i: int| 0 <= i < meshes.len() ==> #[trigger] meshes[i].material < material_count
}

/// The first setup rule that the inputs break, in the order they are checked.
pub open spec fn setup_error(
    format_count: nat,
    c: SceneConfig,
    meshes: Seq<MeshDraw>,
    material_count: nat,
) -> Option<SetupError> {
    if format_count == 0 {
        Some(SetupError::NoSurfaceFormat)
    } else if c.width == 0 || c.height == 0 {
        Some(SetupError::ZeroSurfaceSize)
    } else if !valid_fovy(c.fovy) {
        Some(SetupError::InvalidFieldOfView)
    } else if !valid_clip(c.znear, c.zfar) {
        Some(SetupError::InvalidClipPlanes)
    } else if c.per_row == 0 {
        Some(SetupError::EmptyInstanceGrid)
    } else if c.per_row > MAX_PER_ROW {
        Some(SetupError::InstanceGridTooLarge)
    } else if !materials_exist(meshes, material_count) {
        Some(SetupError::MissingMaterial)
    } else {
        None
    }
}

/// Whether the renderer consumes `event`.
pub open spec fn consumes(event: InputEvent) -> bool {
    match event {
        InputEvent::Key { key, pressed } => is_movement_key(key),
        InputEvent::Scroll => true,
        InputEvent::MouseButton { left, pressed } => left,
        InputEvent::Other => false,
    }
}

/// Whether the left mouse button is held after `event`, if it was `before`.
pub open spec fn mouse_pressed_after(before: bool, event: InputEvent) -> bool {
    match event {
        InputEvent::MouseButton { left, pressed } => if left {
            pressed
        } else {
            before
        },
        _ => before,
    }
}

impl MovementKeys {
    /// The movement keys held after `event`.
    pub open spec fn after_event(self, event: InputEvent) -> MovementKeys {
        match event {
            InputEvent::Key { key, pressed } => self.with_key(key, pressed),
            _ => self,
        }
    }
}

/// `r` is what a frame owes to `outcome`: the full pass over `meshes` for a
/// ready image, a reconfiguration for a lost surface, a skip for an outdated
/// image or a timeout, the fatal error otherwise.
pub open spec fn plan_for(
    outcome: AcquireOutcome,
    r: Result<FramePlan, FrameError>,
    meshes: Seq<MeshDraw>,
    options: PassOptions,
    instance_count: u32,
) -> bool {
    match frame_response(outcome) {
        Ok(FrameAction::Render) => match r {
            Ok(FramePlan::Draw(cmds)) => cmds@ == pass_commands(meshes, options, instance_count),
            _ => false,
        },
        Ok(FrameAction::ReconfigureAndSkip) => r is Ok && r->Ok_0 is Reconfigure,
        Ok(FrameAction::SkipAndRetry) => r is Ok && r->Ok_0 is Skip,
        Err(e) => r == Err::<FramePlan, FrameError>(e),
    }
}

/// Tests that every mesh's material exists.
fn check_materials(meshes: &Vec<MeshDraw>, material_count: usize) -> (r: bool)
    ensures
        r == materials_exist(meshes@, material_count as nat),
{
    let mut i: usize = 0;
    while i < meshes.len()
        invariant
            i <= meshes@.len(),
            forall|j: int| 0 <= j < i ==> #[trigger] meshes@[j].material < material_count,
        decreases meshes@.len() - i,
    {
        if meshes[i].material >= material_count {
            return false;
        }
        i = i + 1;
    }
    true
}

/// The renderer's state between frames, over the caller's texture-format type `F`.
pub struct State<F> {
    surface: SurfaceConfig<F>,
    depth: DepthTarget,
    projection: CameraProjection,
    orientation: Orientation,
    movement: MovementKeys,
    instances: InstanceSet,
    meshes: Vec<MeshDraw>,
    options: PassOptions,
    counters: FrameCounters,
    mouse_pressed: bool,
}

impl<F: Copy> State<F> {
    pub closed spec fn spec_surface(&self) -> SurfaceConfig<F> {
        self.surface
    }

    pub closed spec fn spec_depth(&self) -> DepthTarget {
        self.depth
    }

    pub closed spec fn spec_projection(&self) -> CameraProjection {
        self.projection
    }

    pub closed spec fn spec_orientation(&self) -> Orientation {
        self.orientation
    }

    pub closed spec fn spec_movement(&self) -> MovementKeys {
        self.movement
    }

    pub closed spec fn spec_instances(&self) -> Seq<Instance> {
        self.instances@
    }

    pub closed spec fn spec_spin_rate(&self) -> u32 {
        self.instances.spec_rate()
    }

    pub closed spec fn spec_meshes(&self) -> Seq<MeshDraw> {
        self.meshes@
    }

    pub closed spec fn spec_options(&self) -> PassOptions {
        self.options
    }

    pub closed spec fn spec_counters(&self) -> FrameCounters {
        self.counters
    }

    pub closed spec fn spec_mouse_pressed(&self) -> bool {
        self.mouse_pressed
    }

    /// The surface is configured, the depth target and the aspect ratio
    /// follow its size, and the camera and instances are well formed.
    pub closed spec fn wf(&self) -> bool {
        &&& self.surface.wf()
        &&& self.depth.matches(self.surface)
        &&& self.projection.wf()
        &&& self.projection.aspect_width == self.surface.width
        &&& self.projection.aspect_height == self.surface.height
        &&& self.orientation.wf()
        &&& self.instances.wf()
    }

    /// Nothing but the surface, the depth target and the projection differs.
    pub open spec fn same_scene(&self, other: &State<F>) -> bool {
        &&& self.spec_orientation() == other.spec_orientation()
        &&& self.spec_movement() == other.spec_movement()
        &&& self.spec_instances() == other.spec_instances()
        &&& self.spec_spin_rate() == other.spec_spin_rate()
        &&& self.spec_meshes() == other.spec_meshes()
        &&& self.spec_options() == other.spec_options()
        &&& self.spec_counters() == other.spec_counters()
        &&& self.spec_mouse_pressed() == other.spec_mouse_pressed()
    }

    /// Nothing but the frame counters differs.
    pub open spec fn same_but_counters(&self, other: &State<F>) -> bool {
        &&& self.spec_surface() == other.spec_surface()
        &&& self.spec_depth() == other.spec_depth()
        &&& self.spec_projection() == other.spec_projection()
        &&& self.spec_orientation() == other.spec_orientation()
        &&& self.spec_movement() == other.spec_movement()
        &&& self.spec_instances() == other.spec_instances()
        &&& self.spec_spin_rate() == other.spec_spin_rate()
        &&& self.spec_meshes() == other.spec_meshes()
        &&& self.spec_options() == other.spec_options()
        &&& self.spec_mouse_pressed() == other.spec_mouse_pressed()
    }

    /// Builds the state: configures the surface with the first supported
    /// format, sizes the depth target and the projection to it, lays out the
    /// instance grid and checks that every mesh's material exists.
    pub fn new(
        supported_formats: &Vec<F>,
        config: SceneConfig,
        meshes: Vec<MeshDraw>,
        material_count: usize,
    ) -> (r: Result<State<F>, SetupError>)
        ensures
            r matches Err(e) ==> setup_error(
                supported_formats@.len(),
                config,
                meshes@,
                material_count as nat,
            ) == Some(e),
            r is Ok <==> setup_error(
                supported_formats@.len(),
                config,
                meshes@,
                material_count as nat,
            ) is None,
            r matches Ok(s) ==> {
                &&& s.wf()
                &&& s.spec_surface().format == supported_formats@[0]
                &&& s.spec_surface().width == config.width
                &&& s.spec_surface().height == config.height
                &&& s.spec_surface().present_mode == crate::surface::PresentMode::Fifo
                &&& s.spec_orientation().yaw == crate::camera::wrap_yaw(config.yaw as int)
                &&& s.spec_orientation().pitch == crate::camera::clamp_pitch(config.pitch as int)
                &&& s.spec_movement() == crate::input::no_keys()
                &&& s.spec_depth() == DepthTarget { width: config.width, height: config.height }
                &&& s.spec_projection() == CameraProjection {
                    aspect_width: config.width,
                    aspect_height: config.height,
                    fovy: config.fovy,
                    znear: config.znear,
                    zfar: config.zfar,
                    recompute: true,
                }
                &&& s.spec_instances() == crate::instance::grid(config.per_row as nat, config.spacing)
                &&& s.spec_spin_rate() == config.spin_rate
                &&& s.spec_meshes() == meshes@
                &&& s.spec_options() == config.options
                &&& s.spec_counters() == FrameCounters {
                    frames_rendered: 0,
                    reconfigurations: 0,
                    frames_skipped: 0,
                }
                &&& !s.spec_mouse_pressed()
            },
    {
        let surface = match configure_surface(supported_formats, config.width, config.height) {
            Ok(c) => c,
            Err(e) => {
                return Err(e);
            },
        };
        let projection = match CameraProjection::new(
            config.width,
            config.height,
            config.fovy,
            config.znear,
            config.zfar,
        ) {
            Ok(p) => p,
            Err(e) => {
                return Err(e);
            },
        };
        let instances = match InstanceSet::new(config.per_row, config.spacing, config.spin_rate) {
            Ok(s) => s,
            Err(e) => {
                return Err(e);
            },
        };
        if !check_materials(&meshes, material_count) {
            return Err(SetupError::MissingMaterial);
        }
        let depth = DepthTarget::for_surface(&surface);
        Ok(
            State {
                surface,
                depth,
                projection,
                orientation: Orientation::new(config.yaw, config.pitch),
                movement: MovementKeys::new(),
                instances,
                meshes,
                options: config.options,
                counters: FrameCounters::new(),
                mouse_pressed: false,
            },
        )
    }

    /// Applies a new surface size. With both dimensions positive, the
    /// surface, the depth target and the aspect ratio take it and the
    /// projection is marked stale; with a zero dimension nothing changes.
    /// Returns whether the size was applied, that is whether the GPU surface
    /// must be reconfigured and the depth texture recreated.
    pub fn resize(&mut self, width: u32, height: u32) -> (applied: bool)
        requires
            old(self).wf(),
        ensures
            final(self).wf(),
            applied == (width > 0 && height > 0),
            applied ==> {
                &&& final(self).spec_surface() == SurfaceConfig::<F> {
                    width,
                    height,
                    ..old(self).spec_surface()
                }
                &&& final(self).spec_depth() == DepthTarget { width, height }
                &&& final(self).spec_projection() == CameraProjection {
                    aspect_width: width,
                    aspect_height: height,
                    recompute: true,
                    ..old(self).spec_projection()
                }
            },
            !applied ==> {
                &&& final(self).spec_surface() == old(self).spec_surface()
                &&& final(self).spec_depth() == old(self).spec_depth()
                &&& final(self).spec_projection() == old(self).spec_projection()
            },
            final(self).same_scene(old(self)),
    {
        if width > 0 && height > 0 {
            self.surface.resize(width, height);
            self.depth = DepthTarget::for_surface(&self.surface);
            self.projection.resize(width, height);
            true
        } else {
            false
        }
    }

    /// The configuration to apply again when the surface is lost: the last
    /// valid one.
    pub fn reconfigure_surface(&self) -> (r: &SurfaceConfig<F>)
        ensures
            *r == self.spec_surface(),
    {
        &self.surface
    }

    /// Handles a window event; returns whether the renderer consumed it.
    /// Movement keys are recorded, the wheel is taken for zoom, and the left
    /// mouse button records whether the mouse is pressed.
    pub fn input(&mut self, event: InputEvent) -> (consumed: bool)
        ensures
            consumed == consumes(event),
            final(self).spec_movement() == old(self).spec_movement().after_event(event),
            final(self).spec_mouse_pressed() == mouse_pressed_after(
                old(self).spec_mouse_pressed(),
                event,
            ),
            final(self).spec_surface() == old(self).spec_surface(),
            final(self).spec_depth() == old(self).spec_depth(),
            final(self).spec_projection() == old(self).spec_projection(),
            final(self).spec_orientation() == old(self).spec_orientation(),
            final(self).spec_instances() == old(self).spec_instances(),
            final(self).spec_spin_rate() == old(self).spec_spin_rate(),
            final(self).spec_meshes() == old(self).spec_meshes(),
            final(self).spec_options() == old(self).spec_options(),
            final(self).spec_counters() == old(self).spec_counters(),
            old(self).wf() ==> final(self).wf(),
    {
        match event {
            InputEvent::Key { key, pressed } => self.movement.process_keyboard(key, pressed),
            InputEvent::Scroll => true,
            InputEvent::MouseButton { left, pressed } => {
                if left {
                    self.mouse_pressed = pressed;
                }
                left
            },
            InputEvent::Other => false,
        }
    }

    /// Whether the left mouse button is held.
    pub fn mouse_pressed(&self) -> (r: bool)
        ensures
            r == self.spec_mouse_pressed(),
    {
        self.mouse_pressed
    }

    /// Turns the camera by mouse-driven yaw and pitch deltas, in thousandths
    /// of a degree; the pitch is clamped as it is applied.
    pub fn process_mouse(&mut self, dyaw: i32, dpitch: i32)
        requires
            old(self).wf(),
        ensures
            final(self).wf(),
            final(self).spec_orientation().yaw == crate::camera::wrap_yaw(
                old(self).spec_orientation().yaw + dyaw,
            ),
            final(self).spec_orientation().pitch == crate::camera::clamp_pitch(
                old(self).spec_orientation().pitch + dpitch,
            ),
            final(self).spec_surface() == old(self).spec_surface(),
            final(self).spec_depth() == old(self).spec_depth(),
            final(self).spec_projection() == old(self).spec_projection(),
            final(self).spec_movement() == old(self).spec_movement(),
            final(self).spec_instances() == old(self).spec_instances(),
            final(self).spec_counters() == old(self).spec_counters(),
    {
        self.orientation.rotate(dyaw, dpitch);
    }

    /// Advances the scene by `dt` microseconds: every instance turns by the
    /// angle its spin rate sweeps in that time. Returns whether the
    /// projection changed since the last update, in which case its matrix
    /// must be rebuilt; the flag is cleared.
    pub fn update(&mut self, dt: u64) -> (projection_changed: bool)
        requires
            old(self).wf(),
        ensures
            final(self).wf(),
            projection_changed == old(self).spec_projection().recompute,
            final(self).spec_projection() == (CameraProjection {
                recompute: false,
                ..old(self).spec_projection()
            }),
            final(self).spec_instances() == spin_all(
                old(self).spec_instances(),
                spin_step(old(self).spec_spin_rate(), dt),
            ),
            final(self).spec_spin_rate() == old(self).spec_spin_rate(),
            final(self).spec_surface() == old(self).spec_surface(),
            final(self).spec_depth() == old(self).spec_depth(),
            final(self).spec_orientation() == old(self).spec_orientation(),
            final(self).spec_movement() == old(self).spec_movement(),
            final(self).spec_meshes() == old(self).spec_meshes(),
            final(self).spec_options() == old(self).spec_options(),
            final(self).spec_counters() == old(self).spec_counters(),
            final(self).spec_mouse_pressed() == old(self).spec_mouse_pressed(),
    {
        self.instances.update(dt);
        let changed = self.projection.needs_recompute();
        self.projection.mark_recomputed();
        changed
    }

    /// Drives one frame from the outcome of acquiring a swapchain image: a
    /// ready image gets the full pass; a lost surface is reconfigured and the
    /// frame skipped; an outdated image or a timeout skips the frame; running
    /// out of memory is returned as fatal. The frame counters record which.
    pub fn render(&mut self, outcome: AcquireOutcome) -> (r: Result<FramePlan, FrameError>)
        requires
            old(self).wf(),
        ensures
            final(self).wf(),
            final(self).spec_counters() == old(self).spec_counters().after(outcome),
            plan_for(
                outcome,
                r,
                old(self).spec_meshes(),
                old(self).spec_options(),
                old(self).spec_instances().len() as u32,
            ),
            final(self).same_but_counters(old(self)),
    {
        match self.counters.record(outcome) {
            Ok(FrameAction::Render) => {
                let count = self.instances.count();
                Ok(FramePlan::Draw(plan_pass(&self.meshes, self.options, count)))
            },
            Ok(FrameAction::ReconfigureAndSkip) => Ok(FramePlan::Reconfigure),
            Ok(FrameAction::SkipAndRetry) => Ok(FramePlan::Skip),
            Err(e) => Err(e),
        }
    }

    pub fn surface_config(&self) -> (r: &SurfaceConfig<F>)
        ensures
            *r == self.spec_surface(),
    {
        &self.surface
    }

    pub fn depth_target(&self) -> (r: DepthTarget)
        ensures
            r == self.spec_depth(),
    {
        self.depth
    }

    pub fn projection(&self) -> (r: CameraProjection)
        ensures
            r == self.spec_projection(),
    {
        self.projection
    }

    pub fn orientation(&self) -> (r: Orientation)
        ensures
            r == self.spec_orientation(),
    {
        self.orientation
    }

    pub fn movement(&self) -> (r: MovementKeys)
        ensures
            r == self.spec_movement(),
    {
        self.movement
    }

    pub fn instances(&self) -> (r: &InstanceSet)
        ensures
            r@ == self.spec_instances(),
            r.spec_rate() == self.spec_spin_rate(),
            self.wf() ==> r.wf(),
    {
        &self.instances
    }

    pub fn counters(&self) -> (r: FrameCounters)
        ensures
            r == self.spec_counters(),
    {
        self.counters
    }
}

} // verus!
