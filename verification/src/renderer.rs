//! The frame engine: a state machine that decides, for every report of the
//! presentation backend, what the renderer does next.
//!
//! One displayed frame is a short conversation. The driver announces the
//! frame, performs the action the engine answers with, reports how that went,
//! and so on until the engine answers with `SkipFrame`, `Finish` or `Abort`.

use vstd::prelude::*;
use crate::resources::{InitError, ResourceSet};
use crate::timing::{rotation_angle, Elapsed};

verus! {

/// Vertical field of view of the projection, in degrees.
pub const FIELD_OF_VIEW_DEGREES: u32 = 90;

/// Distance of the near clipping plane, in hundredths of a unit.
pub const NEAR_PLANE_HUNDREDTHS: u32 = 1;

/// Distance of the far clipping plane, in hundredths of a unit.
pub const FAR_PLANE_HUNDREDTHS: u32 = 10_000;

/// Width and height of a surface, in pixels.
#[derive(Clone, Copy, Debug, PartialEq, Eq, Structural)]
pub struct Extent {
    pub width: u32,
    pub height: u32,
}

impl Extent {
    /// An extent without area, as a minimized window reports it.
    pub open spec fn degenerate(self) -> bool {
        self.width == 0 || self.height == 0
    }

    pub fn is_degenerate(&self) -> (r: bool)
        ensures
            r == self.degenerate(),
    {
        self.width == 0 || self.height == 0
    }
}

/// What is known of the work submitted for the most recent frame.
#[derive(Clone, Copy, Debug, PartialEq, Eq, Structural)]
pub enum InFlight {
    /// Nothing is pending: the signal is complete from the start.
    Complete,
    /// Work presenting the given image was submitted and may still run.
    Pending { image_index: u32 },
}

/// Where the engine stands within a frame.
#[derive(Clone, Copy, Debug, PartialEq, Eq, Structural)]
pub enum Phase {
    /// Between two frames.
    Idle,
    /// Waiting for the cleanup of the previous frame's resources.
    Reclaiming,
    /// Waiting for the backend to rebuild the surface at `target`.
    RebuildingSurface { target: Extent },
    /// The surface is new; waiting for the pipeline that matches it.
    BuildingPipeline,
    /// Waiting for the next presentable image.
    Acquiring,
    /// A draw for `image_index` was handed out; waiting for its submission.
    Submitting { image_index: u32 },
    /// A fatal failure was reported; the engine accepts nothing more.
    Halted,
}

/// Failures after which the process cannot go on.
#[derive(Clone, Copy, Debug, PartialEq, Eq, Structural)]
pub enum Fatal {
    /// The backend failed to rebuild the surface for another reason than an
    /// unsupported extent.
    SurfaceRebuild,
    /// The backend rebuilt the surface without any image.
    NoSurfaceImages,
    /// The pipeline for the new surface could not be built.
    PipelineBuild,
    /// Acquiring an image failed for another reason than an outdated surface.
    Acquisition,
    /// The backend handed out an image that the surface does not have.
    ImageOutOfRange,
}

/// What the driver reports to the engine.
#[derive(Clone, Copy, Debug, PartialEq, Eq, Structural)]
pub enum FrameEvent {
    /// A new frame is due.
    Begin,
    /// The previous frame's resources were cleaned up; the window currently
    /// has the given extent.
    Reclaimed { window_extent: Extent },
    /// The surface was rebuilt and has `image_count` images.
    SurfaceRebuilt { image_count: u32 },
    /// The backend does not support the requested extent.
    SurfaceUnsupported,
    /// The backend failed to rebuild the surface.
    SurfaceFailed,
    /// The pipeline for the current surface was built.
    PipelineBuilt,
    /// The pipeline could not be built.
    PipelineFailed,
    /// An image was acquired, `elapsed` after the engine was started.
    Acquired { image_index: u32, suboptimal: bool, elapsed: Elapsed },
    /// The surface is out of date; no image was acquired.
    AcquireOutOfDate,
    /// Acquisition failed.
    AcquireFailed,
    /// The frame's work was submitted and will be presented.
    Submitted,
    /// Submission found the surface out of date.
    SubmitOutOfDate,
    /// Submission failed for another reason.
    SubmitFailed,
}

/// The perspective projection of a frame. The aspect ratio is
/// `aspect_width / aspect_height`.
#[derive(Clone, Copy, Debug, PartialEq, Eq, Structural)]
pub struct Projection {
    pub field_of_view_degrees: u32,
    pub aspect_width: u32,
    pub aspect_height: u32,
    pub near_hundredths: u32,
    pub far_hundredths: u32,
}

/// A clear color; every component is 0 or 1.
#[derive(Clone, Copy, Debug, PartialEq, Eq, Structural)]
pub struct ClearColor {
    pub red: u8,
    pub green: u8,
    pub blue: u8,
    pub alpha: u8,
}

/// Everything the single render pass of a frame depends on.
#[derive(Clone, Copy, Debug, PartialEq, Eq, Structural)]
pub struct DrawPlan {
    /// The framebuffer to render into: that of the acquired image.
    pub framebuffer: u32,
    /// The viewport the bound pipeline was built for.
    pub viewport: Extent,
    /// The color the framebuffer is cleared to: opaque blue.
    pub clear_color: ClearColor,
    /// The clear depth, 0 or 1.
    pub clear_depth: u8,
    /// Rotation of the world about the vertical axis, in billionths of a radian.
    pub rotation_nanos: u128,
    pub projection: Projection,
    /// The signal of the previous frame, which the submission is chained
    /// behind together with the acquisition.
    pub chain_after: InFlight,
    /// Number of indices of the one indexed draw.
    pub index_count: u32,
    /// Number of instances of the one indexed draw.
    pub instance_count: u32,
}

/// What the driver has to do next.
#[derive(Clone, Copy, Debug, PartialEq, Eq, Structural)]
pub enum FrameAction {
    /// Release what the previous frame no longer needs, without blocking, and
    /// report `Reclaimed`.
    Reclaim,
    /// Nothing more is done for this frame.
    SkipFrame,
    /// Rebuild the surface with its depth attachment and framebuffers.
    RebuildSurface { extent: Extent },
    /// Build the pipeline with a viewport fixed to `viewport`.
    BuildPipeline { viewport: Extent, framebuffers: u32 },
    /// Acquire the next presentable image, without a timeout.
    Acquire,
    /// Record the render pass, submit it behind the previous frame and the
    /// acquisition, and present the image.
    Draw { plan: DrawPlan },
    /// The frame is over. With `Pending` the driver keeps the signal of the
    /// submission; with `Complete` it replaces it by one that is complete
    /// already. `report_failure` asks to log the failure.
    Finish { in_flight: InFlight, report_failure: bool },
    /// Terminate with the given cause.
    Abort { cause: Fatal },
    /// The event does not belong to the current phase; nothing changed.
    Rejected,
}

/// The state of the engine.
#[derive(Clone, Copy, Debug, PartialEq, Eq, Structural)]
pub struct RendererModel {
    pub phase: Phase,
    /// The surface has to be rebuilt before the next image is acquired.
    pub surface_stale: bool,
    /// Extent of the current surface.
    pub surface_extent: Extent,
    /// Number of images, and so of framebuffers, of the current surface.
    pub image_count: u32,
    /// Extent that the current pipeline's viewport is fixed to.
    pub pipeline_extent: Extent,
    pub in_flight: InFlight,
    pub index_count: u32,
    pub instance_count: u32,
}

impl RendererModel {
    /// The surface and the pipeline were built for different extents, which
    /// is the case only while one of them is being replaced.
    pub open spec fn pair_in_transition(self) -> bool {
        self.phase == Phase::BuildingPipeline || self.phase == Phase::Halted
    }

    /// The invariant of the engine: outside a rebuild the pipeline is the one
    /// built for the current surface, the surface has an area and at least
    /// one image, and an image in use is one of the surface's.
    pub open spec fn wf(self) -> bool {
        &&& !self.pair_in_transition() ==> self.pipeline_extent == self.surface_extent
        &&& !self.surface_extent.degenerate()
        &&& self.image_count > 0
        &&& match self.phase {
            Phase::RebuildingSurface { target } => self.surface_stale && !target.degenerate(),
            Phase::BuildingPipeline => self.surface_stale,
            Phase::Submitting { image_index } => image_index < self.image_count,
            _ => true,
        }
    }

    /// The engine as it starts: idle, with a fresh surface and nothing pending.
    pub open spec fn initial(
        extent: Extent,
        image_count: u32,
        index_count: u32,
        instance_count: u32,
    ) -> RendererModel {
        RendererModel {
            phase: Phase::Idle,
            surface_stale: false,
            surface_extent: extent,
            image_count,
            pipeline_extent: extent,
            in_flight: InFlight::Complete,
            index_count,
            instance_count,
        }
    }

    /// The state after a resize notification.
    pub open spec fn resized(self) -> RendererModel {
        RendererModel { surface_stale: true, ..self }
    }

    /// The draw of a frame whose image `image_index` was acquired `elapsed`
    /// after the start.
    pub open spec fn draw_plan(self, image_index: u32, elapsed: Elapsed) -> DrawPlan {
        DrawPlan {
            framebuffer: image_index,
            viewport: self.pipeline_extent,
            clear_color: ClearColor { red: 0, green: 0, blue: 1, alpha: 1 },
            clear_depth: 1u8,
            rotation_nanos: rotation_angle(elapsed) as u128,
            projection: Projection {
                field_of_view_degrees: FIELD_OF_VIEW_DEGREES,
                aspect_width: self.surface_extent.width,
                aspect_height: self.surface_extent.height,
                near_hundredths: NEAR_PLANE_HUNDREDTHS,
                far_hundredths: FAR_PLANE_HUNDREDTHS,
            },
            chain_after: self.in_flight,
            index_count: self.index_count,
            instance_count: self.instance_count,
        }
    }

    /// The transition function: the state after `event` and the action that
    /// answers it.
    pub open spec fn step(self, event: FrameEvent) -> (RendererModel, FrameAction) {
        match (self.phase, event) {
            (Phase::Idle, FrameEvent::Begin) => (
                RendererModel { phase: Phase::Reclaiming, ..self },
                FrameAction::Reclaim,
            ),
            (Phase::Reclaiming, FrameEvent::Reclaimed { window_extent }) => {
                if !self.surface_stale {
                    (RendererModel { phase: Phase::Acquiring, ..self }, FrameAction::Acquire)
                } else if window_extent.degenerate() {
                    (RendererModel { phase: Phase::Idle, ..self }, FrameAction::SkipFrame)
                } else {
                    (
                        RendererModel {
                            phase: Phase::RebuildingSurface { target: window_extent },
                            ..self
                        },
                        FrameAction::RebuildSurface { extent: window_extent },
                    )
                }
            },
            (Phase::RebuildingSurface { target }, FrameEvent::SurfaceRebuilt { image_count }) => {
                if image_count == 0 {
                    (
                        RendererModel { phase: Phase::Halted, ..self },
                        FrameAction::Abort { cause: Fatal::NoSurfaceImages },
                    )
                } else {
                    (
                        RendererModel {
                            phase: Phase::BuildingPipeline,
                            surface_extent: target,
                            image_count,
                            ..self
                        },
                        FrameAction::BuildPipeline { viewport: target, framebuffers: image_count },
                    )
                }
            },
            (Phase::RebuildingSurface { target }, FrameEvent::SurfaceUnsupported) => (
                RendererModel { phase: Phase::Idle, ..self },
                FrameAction::SkipFrame,
            ),
            (Phase::RebuildingSurface { target }, FrameEvent::SurfaceFailed) => (
                RendererModel { phase: Phase::Halted, ..self },
                FrameAction::Abort { cause: Fatal::SurfaceRebuild },
            ),
            (Phase::BuildingPipeline, FrameEvent::PipelineBuilt) => (
                RendererModel {
                    phase: Phase::Acquiring,
                    pipeline_extent: self.surface_extent,
                    surface_stale: false,
                    ..self
                },
                FrameAction::Acquire,
            ),
            (Phase::BuildingPipeline, FrameEvent::PipelineFailed) => (
                RendererModel { phase: Phase::Halted, ..self },
                FrameAction::Abort { cause: Fatal::PipelineBuild },
            ),
            (Phase::Acquiring, FrameEvent::Acquired { image_index, suboptimal, elapsed }) => {
                if image_index >= self.image_count {
                    (
                        RendererModel { phase: Phase::Halted, ..self },
                        FrameAction::Abort { cause: Fatal::ImageOutOfRange },
                    )
                } else {
                    (
                        RendererModel {
                            phase: Phase::Submitting { image_index },
                            surface_stale: self.surface_stale || suboptimal,
                            ..self
                        },
                        FrameAction::Draw { plan: self.draw_plan(image_index, elapsed) },
                    )
                }
            },
            (Phase::Acquiring, FrameEvent::AcquireOutOfDate) => (
                RendererModel { phase: Phase::Idle, surface_stale: true, ..self },
                FrameAction::SkipFrame,
            ),
            (Phase::Acquiring, FrameEvent::AcquireFailed) => (
                RendererModel { phase: Phase::Halted, ..self },
                FrameAction::Abort { cause: Fatal::Acquisition },
            ),
            (Phase::Submitting { image_index }, FrameEvent::Submitted) => (
                RendererModel {
                    phase: Phase::Idle,
                    in_flight: InFlight::Pending { image_index },
                    ..self
                },
                FrameAction::Finish {
                    in_flight: InFlight::Pending { image_index },
                    report_failure: false,
                },
            ),
            (Phase::Submitting { image_index }, FrameEvent::SubmitOutOfDate) => (
                RendererModel {
                    phase: Phase::Idle,
                    surface_stale: true,
                    in_flight: InFlight::Complete,
                    ..self
                },
                FrameAction::Finish { in_flight: InFlight::Complete, report_failure: false },
            ),
            (Phase::Submitting { image_index }, FrameEvent::SubmitFailed) => (
                RendererModel { phase: Phase::Idle, in_flight: InFlight::Complete, ..self },
                FrameAction::Finish { in_flight: InFlight::Complete, report_failure: true },
            ),
            _ => (self, FrameAction::Rejected),
        }
    }
}

/// The frame engine. It owns the flag that marks the surface stale and the
/// record of what the surface and the pipeline were built for. Its state
/// meets the invariant `RendererModel::wf` at all times.
#[derive(Debug)]
pub struct PoritzCraftRenderer {
    state: RendererModel,
}

impl View for PoritzCraftRenderer {
    type V = RendererModel;

    closed spec fn view(&self) -> RendererModel {
        self.state
    }
}

impl RendererModel {
    /// Computes the draw of a frame whose image `image_index` was acquired
    /// `elapsed` after the start.
    pub fn plan_draw(&self, image_index: u32, elapsed: Elapsed) -> (plan: DrawPlan)
        ensures
            plan == self.draw_plan(image_index, elapsed),
    {
        DrawPlan {
            framebuffer: image_index,
            viewport: self.pipeline_extent,
            clear_color: ClearColor { red: 0, green: 0, blue: 1, alpha: 1 },
            clear_depth: 1u8,
            rotation_nanos: elapsed.rotation_nanos(),
            projection: Projection {
                field_of_view_degrees: FIELD_OF_VIEW_DEGREES,
                aspect_width: self.surface_extent.width,
                aspect_height: self.surface_extent.height,
                near_hundredths: NEAR_PLANE_HUNDREDTHS,
                far_hundredths: FAR_PLANE_HUNDREDTHS,
            },
            chain_after: self.in_flight,
            index_count: self.index_count,
            instance_count: self.instance_count,
        }
    }

    /// Computes the transition for `event`: the next state and the action
    /// that answers the event.
    pub fn advance(&self, event: FrameEvent) -> (r: (RendererModel, FrameAction))
        ensures
            r == self.step(event),
            self.wf() ==> r.0.wf(),
    {
        let mut next: RendererModel = *self;
        let action = match (self.phase, event) {
            (Phase::Idle, FrameEvent::Begin) => {
                next.phase = Phase::Reclaiming;
                FrameAction::Reclaim
            },
            (Phase::Reclaiming, FrameEvent::Reclaimed { window_extent }) => {
                if !self.surface_stale {
                    next.phase = Phase::Acquiring;
                    FrameAction::Acquire
                } else if window_extent.is_degenerate() {
                    next.phase = Phase::Idle;
                    FrameAction::SkipFrame
                } else {
                    next.phase = Phase::RebuildingSurface { target: window_extent };
                    FrameAction::RebuildSurface { extent: window_extent }
                }
            },
            (Phase::RebuildingSurface { target }, FrameEvent::SurfaceRebuilt { image_count }) => {
                if image_count == 0 {
                    next.phase = Phase::Halted;
                    FrameAction::Abort { cause: Fatal::NoSurfaceImages }
                } else {
                    next.phase = Phase::BuildingPipeline;
                    next.surface_extent = target;
                    next.image_count = image_count;
                    FrameAction::BuildPipeline { viewport: target, framebuffers: image_count }
                }
            },
            (Phase::RebuildingSurface { target: _ }, FrameEvent::SurfaceUnsupported) => {
                next.phase = Phase::Idle;
                FrameAction::SkipFrame
            },
            (Phase::RebuildingSurface { target: _ }, FrameEvent::SurfaceFailed) => {
                next.phase = Phase::Halted;
                FrameAction::Abort { cause: Fatal::SurfaceRebuild }
            },
            (Phase::BuildingPipeline, FrameEvent::PipelineBuilt) => {
                next.phase = Phase::Acquiring;
                next.pipeline_extent = self.surface_extent;
                next.surface_stale = false;
                FrameAction::Acquire
            },
            (Phase::BuildingPipeline, FrameEvent::PipelineFailed) => {
                next.phase = Phase::Halted;
                FrameAction::Abort { cause: Fatal::PipelineBuild }
            },
            (Phase::Acquiring, FrameEvent::Acquired { image_index, suboptimal, elapsed }) => {
                if image_index >= self.image_count {
                    next.phase = Phase::Halted;
                    FrameAction::Abort { cause: Fatal::ImageOutOfRange }
                } else {
                    next.phase = Phase::Submitting { image_index };
                    next.surface_stale = self.surface_stale || suboptimal;
                    FrameAction::Draw { plan: self.plan_draw(image_index, elapsed) }
                }
            },
            (Phase::Acquiring, FrameEvent::AcquireOutOfDate) => {
                next.phase = Phase::Idle;
                next.surface_stale = true;
                FrameAction::SkipFrame
            },
            (Phase::Acquiring, FrameEvent::AcquireFailed) => {
                next.phase = Phase::Halted;
                FrameAction::Abort { cause: Fatal::Acquisition }
            },
            (Phase::Submitting { image_index }, FrameEvent::Submitted) => {
                next.phase = Phase::Idle;
                next.in_flight = InFlight::Pending { image_index };
                FrameAction::Finish {
                    in_flight: InFlight::Pending { image_index },
                    report_failure: false,
                }
            },
            (Phase::Submitting { image_index: _ }, FrameEvent::SubmitOutOfDate) => {
                next.phase = Phase::Idle;
                next.surface_stale = true;
                next.in_flight = InFlight::Complete;
                FrameAction::Finish { in_flight: InFlight::Complete, report_failure: false }
            },
            (Phase::Submitting { image_index: _ }, FrameEvent::SubmitFailed) => {
                next.phase = Phase::Idle;
                next.in_flight = InFlight::Complete;
                FrameAction::Finish { in_flight: InFlight::Complete, report_failure: true }
            },
            _ => FrameAction::Rejected,
        };
        (next, action)
    }
}

impl PoritzCraftRenderer {
    #[verifier::type_invariant]
    spec fn sound(self) -> bool {
        self.state.wf()
    }

    /// Starts the engine for a checked resource set and a surface of the
    /// given extent and image count. A surface without area or without
    /// images is refused.
    pub fn new(resources: &ResourceSet, extent: Extent, image_count: u32) -> (r: Result<
        PoritzCraftRenderer,
        InitError,
    >)
        ensures
            match r {
                Ok(engine) => {
                    &&& !extent.degenerate()
                    &&& image_count > 0
                    &&& engine@ == RendererModel::initial(
                        extent,
                        image_count,
                        resources@.indices.len() as u32,
                        resources@.instances.len() as u32,
                    )
                    &&& engine@.index_count == resources@.indices.len()
                    &&& engine@.instance_count == resources@.instances.len()
                    &&& engine@.wf()
                },
                Err(e) => if extent.degenerate() {
                    e == InitError::DegenerateExtent
                } else {
                    image_count == 0 && e == InitError::NoSurfaceImages
                },
            },
    {
        if extent.is_degenerate() {
            return Err(InitError::DegenerateExtent);
        }
        if image_count == 0 {
            return Err(InitError::NoSurfaceImages);
        }
        let index_count: u32 = resources.index_count();
        let instance_count: u32 = resources.instance_count();
        Ok(
            PoritzCraftRenderer {
                state: RendererModel {
                    phase: Phase::Idle,
                    surface_stale: false,
                    surface_extent: extent,
                    image_count,
                    pipeline_extent: extent,
                    in_flight: InFlight::Complete,
                    index_count,
                    instance_count,
                },
            },
        )
    }

    /// Marks the surface stale: it is rebuilt before the next image is
    /// acquired. Nothing else changes. The notification belongs between two
    /// frames; one that arrives while a rebuild is under way is taken as
    /// answered by that rebuild.
    pub fn notify_resized(&mut self)
        ensures
            final(self)@ == old(self)@.resized(),
            final(self)@.wf(),
    {
        proof {
            use_type_invariant(&*self);
        }
        self.state.surface_stale = true;
    }

    /// Takes one report of the driver and answers with the next action, as
    /// the transition function says.
    pub fn render(&mut self, event: FrameEvent) -> (action: FrameAction)
        ensures
            (final(self)@, action) == old(self)@.step(event),
            final(self)@.wf(),
    {
        proof {
            use_type_invariant(&*self);
        }
        let (next, action) = self.state.advance(event);
        self.state = next;
        action
    }

    /// The engine's state, for inspection.
    pub fn state(&self) -> (m: RendererModel)
        ensures
            m == self@,
            m.wf(),
    {
        proof {
            use_type_invariant(self);
        }
        self.state
    }

    /// Whether the surface is rebuilt before the next image is acquired.
    pub fn surface_stale(&self) -> (stale: bool)
        ensures
            stale == self@.surface_stale,
    {
        self.state.surface_stale
    }
}

} // verus!
