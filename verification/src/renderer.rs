//! The presentation surface's state: its configuration, the plan of each
//! tick, and the recovery from a frame that failed.

use crate::pipeline::mesh::{
    draw_calls, fits, lays_out, CapacityError, DrawCall, Mesh, SyncPlan,
};
use crate::cache::Cache;
use crate::scene::{InitData, Scene};
use vstd::prelude::*;

verus! {

/// Declares `wgpu::TextureFormat`, so that a format can be carried through
/// verified code. Nothing is known of what a format holds.
#[verifier::external_type_specification]
#[verifier::external_body]
pub struct ExTextureFormat(wgpu::TextureFormat);

/// Declares `wgpu::SurfaceError`, so that an error can be handed to verified
/// code. Nothing is known of what an error holds.
#[verifier::external_type_specification]
#[verifier::external_body]
pub struct ExSurfaceError(wgpu::SurfaceError);

/// What `wgpu::TextureFormat::is_srgb` answers for the format.
pub uninterp spec fn format_is_srgb(format: wgpu::TextureFormat) -> bool;

/// The variant of `wgpu::SurfaceError` that the error is, as a
/// `SurfaceFailure`.
pub uninterp spec fn surface_failure(error: wgpu::SurfaceError) -> SurfaceFailure;

/// Calls `wgpu::TextureFormat::is_srgb`. Nothing is proved of it: the
/// contract only gives the answer its name, `format_is_srgb`.
#[verifier::external_body]
fn is_srgb(format: &wgpu::TextureFormat) -> (srgb: bool)
    ensures
        srgb == format_is_srgb(*format),
{
    format.is_srgb()
}

/// Tells the variants of `wgpu::SurfaceError` apart, each into the variant
/// of `SurfaceFailure` with the same name. Nothing is proved of it: the
/// contract only gives the answer its name, `surface_failure`.
#[verifier::external_body]
fn failure_of(error: &wgpu::SurfaceError) -> (failure: SurfaceFailure)
    ensures
        failure == surface_failure(*error),
{
    match error {
        wgpu::SurfaceError::Timeout => SurfaceFailure::Timeout,
        wgpu::SurfaceError::Outdated => SurfaceFailure::Outdated,
        wgpu::SurfaceError::Lost => SurfaceFailure::Lost,
        wgpu::SurfaceError::OutOfMemory => SurfaceFailure::OutOfMemory,
        wgpu::SurfaceError::Other => SurfaceFailure::Other,
    }
}

/// Why no surface format could be chosen.
#[derive(Clone, Copy, Debug, PartialEq, Eq, Structural)]
pub enum FormatError {
    NotFound,
}

impl FormatError {
    /// The error in words.
    pub fn message(&self) -> (message: String)
        ensures
            message@ == "no valid format was supported by the surface"@,
    {
        "no valid format was supported by the surface".to_owned()
    }
}

/// Why the renderer could not be set up.
#[derive(Clone, Copy, Debug, PartialEq, Eq, Structural)]
pub enum StartupError {
    /// The surface offers no sRGB format.
    Format(FormatError),
    /// The device resources cannot be laid out.
    Pipeline,
}

/// What can go wrong when a frame is acquired or presented.
#[derive(Clone, Copy, Debug, PartialEq, Eq, Structural)]
pub enum SurfaceFailure {
    Timeout,
    Outdated,
    Lost,
    OutOfMemory,
    Other,
}

/// A failure after which the surface can be configured again.
#[derive(Clone, Copy, Debug, PartialEq, Eq, Structural)]
pub enum Recoverable {
    Outdated,
    Lost,
}

/// A failure that ends rendering.
#[derive(Clone, Copy, Debug, PartialEq, Eq, Structural)]
pub enum Fatal {
    Timeout,
    OutOfMemory,
}

/// A failure, sorted by what can be done about it.
#[derive(Clone, Copy, Debug, PartialEq, Eq, Structural)]
pub enum FrameError {
    Recoverable(Recoverable),
    Fatal(Fatal),
    Other,
}

/// What was done about a failed frame, and what is left to the caller.
#[derive(Clone, Copy, Debug, PartialEq, Eq, Structural)]
pub enum Recovery {
    /// The state holds the window's size again: the surface and the depth
    /// image are to be made anew from it. The frame is skipped.
    Reconfigured,
    /// The window has no area, so there is nothing to configure. The frame
    /// is skipped.
    Skipped,
    /// Rendering cannot go on.
    Fatal(Fatal),
    /// The frame is dropped; the failure is reported and rendering goes on.
    Dropped,
}

/// What the surface is configured with.
#[derive(Clone, Copy, Debug, PartialEq, Eq)]
pub struct SurfaceConfiguration {
    pub format: wgpu::TextureFormat,
    pub width: u32,
    pub height: u32,
}

/// The size and the level counts of a texture.
#[derive(Clone, Copy, Debug, PartialEq, Eq, Structural)]
pub struct TextureDescriptor {
    pub width: u32,
    pub height: u32,
    pub depth_or_array_layers: u32,
    pub mip_level_count: u32,
    pub sample_count: u32,
}

/// What becomes of the frame of one tick.
#[derive(Debug, PartialEq, Eq)]
pub enum Frame {
    /// The surface is not configured yet: nothing is acquired or drawn, and
    /// nothing has failed.
    Skipped,
    /// An image is acquired, the draws are recorded against it and the depth
    /// image, and the commands are submitted and presented.
    Drawn { draws: Vec<DrawCall> },
}

/// What one tick asks of the device, in this order: the writes of `sync` are
/// issued and then its flags are cleared; after that comes the frame.
#[derive(Debug, PartialEq, Eq)]
pub struct RenderPlan {
    pub sync: SyncPlan,
    pub frame: Frame,
}

/// The surface's configuration, whether it has been applied yet, the depth
/// image that goes with it, and the mesh pipeline.
pub struct RendererState {
    pub surface_config: SurfaceConfiguration,
    pub is_surface_configured: bool,
    pub mesh_pipeline: Mesh,
    pub depth_texture: TextureDescriptor,
}

/// `i` is where the first `true` of `flags` stands.
pub open spec fn is_first_true(flags: Seq<bool>, i: int) -> bool {
    &&& 0 <= i < flags.len()
    &&& flags[i]
    &&& forall|j: int| 0 <= j < i ==> !#[trigger] flags[j]
}

/// For each format, whether it is sRGB.
pub open spec fn srgb_flags(formats: Seq<wgpu::TextureFormat>) -> Seq<bool> {
    Seq::new(formats.len(), |i: int| format_is_srgb(formats[i]))
}

/// `chosen` is the choice among `formats`: the first sRGB format, or
/// `NotFound` where none of them is.
pub open spec fn chooses(
    formats: Seq<wgpu::TextureFormat>,
    chosen: Result<wgpu::TextureFormat, FormatError>,
) -> bool {
    match chosen {
        Ok(format) => exists|i: int|
            is_first_true(srgb_flags(formats), i) && #[trigger] formats[i] == format,
        Err(_) => forall|i: int| 0 <= i < formats.len() ==> !format_is_srgb(#[trigger] formats[i]),
    }
}

/// The scene with its camera marked dirty, as it is once the projection has
/// to follow a new window shape.
pub open spec fn reprojected<O, P, D, C>(scene: Scene<O, P, D, C>) -> Scene<O, P, D, C> {
    Scene {
        objects: scene.objects,
        point_lights: scene.point_lights,
        directional_lights: scene.directional_lights,
        camera: Cache { value: scene.camera.value, dirty: true },
    }
}

/// The depth image for a surface: one layer, one level, one sample, as wide
/// and as high as the surface.
pub open spec fn depth_texture_for(config: SurfaceConfiguration) -> TextureDescriptor {
    TextureDescriptor {
        width: config.width,
        height: config.height,
        depth_or_array_layers: 1,
        mip_level_count: 1,
        sample_count: 1,
    }
}

/// Outdated and lost surfaces can be recovered, timeouts and exhausted
/// memory cannot, and anything else is neither.
pub open spec fn classified(failure: SurfaceFailure) -> FrameError {
    match failure {
        SurfaceFailure::Outdated => FrameError::Recoverable(Recoverable::Outdated),
        SurfaceFailure::Lost => FrameError::Recoverable(Recoverable::Lost),
        SurfaceFailure::Timeout => FrameError::Fatal(Fatal::Timeout),
        SurfaceFailure::OutOfMemory => FrameError::Fatal(Fatal::OutOfMemory),
        SurfaceFailure::Other => FrameError::Other,
    }
}

/// What is done about `error` in a window of the given size.
pub open spec fn recovery_for(
    error: FrameError,
    window_width: u32,
    window_height: u32,
) -> Recovery {
    match error {
        FrameError::Recoverable(_) => if window_width > 0 && window_height > 0 {
            Recovery::Reconfigured
        } else {
            Recovery::Skipped
        },
        FrameError::Fatal(fatal) => Recovery::Fatal(fatal),
        FrameError::Other => Recovery::Dropped,
    }
}

/// Sorts a failure by what can be done about it.
pub fn classify(failure: SurfaceFailure) -> (error: FrameError)
    ensures
        error == classified(failure),
{
    match failure {
        SurfaceFailure::Outdated => FrameError::Recoverable(Recoverable::Outdated),
        SurfaceFailure::Lost => FrameError::Recoverable(Recoverable::Lost),
        SurfaceFailure::Timeout => FrameError::Fatal(Fatal::Timeout),
        SurfaceFailure::OutOfMemory => FrameError::Fatal(Fatal::OutOfMemory),
        SurfaceFailure::Other => FrameError::Other,
    }
}

/// Finds the first `true` among `flags`.
pub fn first_srgb(flags: &Vec<bool>) -> (found: Option<usize>)
    ensures
        match found {
            Some(i) => is_first_true(flags@, i as int),
            None => forall|j: int| 0 <= j < flags@.len() ==> !#[trigger] flags@[j],
        },
{
    let mut i: usize = 0;
    while i < flags.len()
        invariant
            i <= flags@.len(),
            forall|j: int| 0 <= j < i ==> !#[trigger] flags@[j],
        decreases flags@.len() - i,
    {
        if flags[i] {
            return Some(i);
        }
        i += 1;
    }
    None
}

/// Chooses the surface format: the first of `formats` that is sRGB.
pub fn select_format(formats: &Vec<wgpu::TextureFormat>) -> (chosen: Result<
    wgpu::TextureFormat,
    FormatError,
>)
    ensures
        chooses(formats@, chosen),
{
    let mut flags: Vec<bool> = Vec::new();
    while flags.len() < formats.len()
        invariant
            flags@.len() <= formats@.len(),
            forall|j: int|
                0 <= j < flags@.len() ==> #[trigger] flags@[j] == format_is_srgb(formats@[j]),
        decreases formats@.len() - flags@.len(),
    {
        let srgb = is_srgb(&formats[flags.len()]);
        flags.push(srgb);
    }
    assert(flags@ =~= srgb_flags(formats@));
    match first_srgb(&flags) {
        Some(i) => Ok(formats[i]),
        None => {
            assert forall|i: int| 0 <= i < formats@.len() implies !format_is_srgb(
                #[trigger] formats@[i],
            ) by {
                assert(!flags@[i]);
            }
            Err(FormatError::NotFound)
        },
    }
}

impl RendererState {
    /// The depth image has the size of the surface.
    pub open spec fn wf(&self) -> bool {
        self.depth_texture == depth_texture_for(self.surface_config)
    }

    /// The state after a resize to the given size. A size without area
    /// changes nothing.
    pub open spec fn resized(self, width: u32, height: u32) -> RendererState {
        if width > 0 && height > 0 {
            let surface_config = SurfaceConfiguration {
                format: self.surface_config.format,
                width,
                height,
            };
            RendererState {
                surface_config,
                is_surface_configured: true,
                mesh_pipeline: self.mesh_pipeline,
                depth_texture: depth_texture_for(surface_config),
            }
        } else {
            self
        }
    }

    /// The state after `error` was handled in a window of the given size.
    pub open spec fn recovered(
        self,
        error: FrameError,
        window_width: u32,
        window_height: u32,
    ) -> RendererState {
        match error {
            FrameError::Recoverable(_) => self.resized(window_width, window_height),
            _ => self,
        }
    }

    /// `planned` is what a tick with `scene` comes to. A scene that cannot
    /// be synchronised is refused. Otherwise what is dirty is synchronised;
    /// the frame is skipped while the surface is not configured, and holds
    /// the draws of the pipeline once it is.
    pub open spec fn renders<O, P, D, C>(
        &self,
        scene: &Scene<O, P, D, C>,
        planned: Result<RenderPlan, CapacityError>,
    ) -> bool {
        match planned {
            Ok(plan) => {
                &&& self.mesh_pipeline.plans(scene, Ok(plan.sync))
                &&& match plan.frame {
                    Frame::Skipped => !self.is_surface_configured,
                    Frame::Drawn { draws } => {
                        &&& self.is_surface_configured
                        &&& draws@ == draw_calls(
                            self.mesh_pipeline@.index_lengths@,
                            self.mesh_pipeline@.uniform_groups@.len(),
                        )
                    },
                }
            },
            Err(error) => self.mesh_pipeline.plans(scene, Err(error)),
        }
    }

    /// Sets the renderer up for a surface that offers `formats` in a window
    /// of the given size. The surface counts as not configured until the
    /// first resize.
    pub fn new<V, O, P, D, C, U>(
        formats: &Vec<wgpu::TextureFormat>,
        width: u32,
        height: u32,
        scene: &Scene<O, P, D, C>,
        init_data: &InitData<V>,
    ) -> (made: Result<RendererState, StartupError>)
        ensures
            match made {
                Ok(state) => {
                    &&& chooses(formats@, Ok(state.surface_config.format))
                    &&& state.surface_config.width == width
                    &&& state.surface_config.height == height
                    &&& !state.is_surface_configured
                    &&& state.wf()
                    &&& fits::<V, P>(init_data.models@, scene.point_lights.values@.len())
                    &&& lays_out::<V, O, P, U>(
                        state.mesh_pipeline@,
                        init_data.models@,
                        scene.objects.values@.len(),
                        scene.point_lights.values@.len(),
                    )
                },
                Err(StartupError::Format(error)) => chooses(formats@, Err(error)),
                Err(StartupError::Pipeline) => {
                    &&& exists|format: wgpu::TextureFormat| chooses(formats@, Ok(format))
                    &&& !fits::<V, P>(init_data.models@, scene.point_lights.values@.len())
                },
            },
    {
        let surface_format = match select_format(formats) {
            Ok(surface_format) => surface_format,
            Err(error) => { return Err(StartupError::Format(error)); },
        };
        let config = SurfaceConfiguration { format: surface_format, width, height };
        let depth_texture = Self::create_depth_texture(&config);
        match Mesh::new::<V, O, P, D, C, U>(init_data, scene) {
            Ok(mesh_pipeline) => Ok(
                RendererState {
                    surface_config: config,
                    is_surface_configured: false,
                    mesh_pipeline,
                    depth_texture,
                },
            ),
            Err(_) => Err(StartupError::Pipeline),
        }
    }

    /// Describes the depth image for a surface configured with `config`.
    pub fn create_depth_texture(config: &SurfaceConfiguration) -> (texture: TextureDescriptor)
        ensures
            texture == depth_texture_for(*config),
    {
        TextureDescriptor {
            width: config.width,
            height: config.height,
            depth_or_array_layers: 1,
            mip_level_count: 1,
            sample_count: 1,
        }
    }

    /// Takes a new window size. With a width and a height above zero the
    /// state takes the size, describes the depth image anew and counts as
    /// configured, and the camera of `scene`, where there is a scene, is
    /// marked dirty, because its projection follows the window's shape. The
    /// answer is then `true`: the surface is to be configured from the state
    /// and the camera projected anew. A size without area changes nothing.
    pub fn resize<O, P, D, C>(
        &mut self,
        width: u32,
        height: u32,
        scene: Option<&mut Scene<O, P, D, C>>,
    ) -> (reconfigured: bool)
        ensures
            *final(self) == old(self).resized(width, height),
            reconfigured == (width > 0 && height > 0),
            match scene {
                Some(scene) => *final(scene) == if reconfigured {
                    reprojected(*scene)
                } else {
                    *scene
                },
                None => true,
            },
    {
        if width > 0 && height > 0 {
            self.is_surface_configured = true;
            self.surface_config.width = width;
            self.surface_config.height = height;
            self.depth_texture = Self::create_depth_texture(&self.surface_config);
            match scene {
                Some(scene) => { scene.camera.dirty = true; },
                None => {},
            }
            true
        } else {
            false
        }
    }

    /// Plans one tick with `scene`: the synchronisation, and the frame.
    pub fn render<O, P, D, C>(&self, scene: &Scene<O, P, D, C>) -> (planned: Result<
        RenderPlan,
        CapacityError,
    >)
        ensures
            self.renders(scene, planned),
    {
        let sync = match self.mesh_pipeline.update(scene) {
            Ok(sync) => sync,
            Err(error) => { return Err(error); },
        };
        let frame = if self.is_surface_configured {
            Frame::Drawn { draws: self.mesh_pipeline.draw() }
        } else {
            Frame::Skipped
        };
        Ok(RenderPlan { sync, frame })
    }

    /// Handles a failed frame in a window of the given size. After a
    /// recoverable failure the state is resized to the window; after any
    /// other it stays as it is.
    pub fn recover<O, P, D, C>(
        &mut self,
        error: FrameError,
        window_width: u32,
        window_height: u32,
        scene: Option<&mut Scene<O, P, D, C>>,
    ) -> (recovery: Recovery)
        ensures
            *final(self) == old(self).recovered(error, window_width, window_height),
            recovery == recovery_for(error, window_width, window_height),
            match scene {
                Some(scene) => *final(scene) == if recovery == Recovery::Reconfigured {
                    reprojected(*scene)
                } else {
                    *scene
                },
                None => true,
            },
    {
        match error {
            FrameError::Recoverable(_) => {
                if self.resize(window_width, window_height, scene) {
                    Recovery::Reconfigured
                } else {
                    Recovery::Skipped
                }
            },
            FrameError::Fatal(fatal) => Recovery::Fatal(fatal),
            FrameError::Other => Recovery::Dropped,
        }
    }

    /// Handles the error of a frame that could not be acquired or presented,
    /// in a window of the given size.
    pub fn surface_error<O, P, D, C>(
        &mut self,
        error: &wgpu::SurfaceError,
        window_width: u32,
        window_height: u32,
        scene: Option<&mut Scene<O, P, D, C>>,
    ) -> (recovery: Recovery)
        ensures
            *final(self) == old(self).recovered(
                classified(surface_failure(*error)),
                window_width,
                window_height,
            ),
            recovery == recovery_for(
                classified(surface_failure(*error)),
                window_width,
                window_height,
            ),
            match scene {
                Some(scene) => *final(scene) == if recovery == Recovery::Reconfigured {
                    reprojected(*scene)
                } else {
                    *scene
                },
                None => true,
            },
    {
        let failure = failure_of(error);
        self.recover(classify(failure), window_width, window_height, scene)
    }
}

/// A resize to a size without area changes nothing, so a surface that was
/// not configured stays so. A later resize to a size with area configures it
/// with that size, and the depth image with it.
pub proof fn lemma_zero_size_resize(
    state: RendererState,
    width: u32,
    height: u32,
    later_width: u32,
    later_height: u32,
)
    requires
        width == 0 || height == 0,
        later_width > 0,
        later_height > 0,
    ensures
        state.resized(width, height) == state,
        ({
            let later = state.resized(width, height).resized(later_width, later_height);
            &&& later.is_surface_configured
            &&& later.surface_config.width == later_width
            &&& later.surface_config.height == later_height
            &&& later.surface_config.format == state.surface_config.format
            &&& later.mesh_pipeline == state.mesh_pipeline
            &&& later.wf()
        }),
{
}

/// After an outdated or lost surface, in a window that has an area, the
/// state is configured with the window's size and nothing fatal is reported.
/// The next tick does not skip its frame: a scene that has the numbers of
/// lights and objects that the buffers were made for is drawn.
pub proof fn lemma_surface_loss_recovery<O, P, D, C>(
    state: RendererState,
    failure: SurfaceFailure,
    window_width: u32,
    window_height: u32,
    scene: Scene<O, P, D, C>,
    planned: Result<RenderPlan, CapacityError>,
)
    requires
        failure == SurfaceFailure::Outdated || failure == SurfaceFailure::Lost,
        window_width > 0,
        window_height > 0,
        state.recovered(classified(failure), window_width, window_height).renders(
            &scene,
            planned,
        ),
    ensures
        recovery_for(classified(failure), window_width, window_height) == Recovery::Reconfigured,
        ({
            let after = state.recovered(classified(failure), window_width, window_height);
            &&& after.is_surface_configured
            &&& after.surface_config.width == window_width
            &&& after.surface_config.height == window_height
            &&& after.wf()
            &&& after.mesh_pipeline == state.mesh_pipeline
        }),
        planned is Ok ==> planned->Ok_0.frame is Drawn,
        scene.point_lights.values@.len() == state.mesh_pipeline@.light_count
            && scene.objects.values@.len() == state.mesh_pipeline@.object_buffers@.len()
            ==> planned is Ok,
{
}

/// A failure that is not recoverable leaves the state as it was.
pub proof fn lemma_only_recoverable_reconfigures(
    state: RendererState,
    failure: SurfaceFailure,
    window_width: u32,
    window_height: u32,
)
    requires
        failure != SurfaceFailure::Outdated,
        failure != SurfaceFailure::Lost,
    ensures
        state.recovered(classified(failure), window_width, window_height) == state,
        recovery_for(classified(failure), window_width, window_height) != Recovery::Reconfigured,
{
}

} // verus!
