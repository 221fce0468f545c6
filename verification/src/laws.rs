//! What holds of the engine over whole frames and over every history.

use vstd::prelude::*;
use crate::renderer::{Extent, FrameAction, FrameEvent, Phase, RendererModel};
use crate::timing::{rotation_angle, Elapsed};

verus! {

/// One thing that happens to the engine: a resize notification or a report
/// of the driver.
pub enum Input {
    Resized,
    Report { event: FrameEvent },
}

/// The state after one input.
pub open spec fn apply(m: RendererModel, input: Input) -> RendererModel {
    match input {
        Input::Resized => m.resized(),
        Input::Report { event } => m.step(event).0,
    }
}

/// The state after a history of inputs.
pub open spec fn run(m: RendererModel, inputs: Seq<Input>) -> RendererModel
    decreases inputs.len(),
{
    if inputs.len() == 0 {
        m
    } else {
        apply(run(m, inputs.drop_last()), inputs.last())
    }
}

/// A draw uses a surface and a pipeline built for the same extent, a
/// framebuffer the surface has, and an aspect ratio taken from the surface
/// as it is at that moment.
pub open spec fn draw_is_consistent(m: RendererModel, action: FrameAction) -> bool {
    match action {
        FrameAction::Draw { plan } => {
            &&& m.pipeline_extent == m.surface_extent
            &&& plan.viewport == m.surface_extent
            &&& plan.projection.aspect_width == m.surface_extent.width
            &&& plan.projection.aspect_height == m.surface_extent.height
            &&& plan.projection.aspect_height > 0
            &&& plan.framebuffer < m.image_count
            &&& plan.index_count == m.index_count
            &&& plan.instance_count == m.instance_count
        },
        _ => true,
    }
}

/// One input keeps the engine's invariant, and a draw that answers it is
/// consistent with the state it is handed out in.
pub proof fn step_keeps_invariant(m: RendererModel, event: FrameEvent)
    requires
        m.wf(),
    ensures
        m.step(event).0.wf(),
        m.resized().wf(),
        draw_is_consistent(m.step(event).0, m.step(event).1),
{
}

/// Whatever resize notifications and reports arrive, in whatever order, the
/// engine's invariant holds afterwards, and a draw handed out then uses a
/// surface and a pipeline that were built for the same extent.
pub proof fn history_keeps_pair_matched(start: RendererModel, inputs: Seq<Input>, next: FrameEvent)
    requires
        start.wf(),
    ensures
        run(start, inputs).wf(),
        draw_is_consistent(run(start, inputs).step(next).0, run(start, inputs).step(next).1),
    decreases inputs.len(),
{
    if inputs.len() > 0 {
        let earlier = inputs.drop_last();
        match inputs.last() {
            Input::Resized => {
                history_keeps_pair_matched(start, earlier, next);
                step_keeps_invariant(run(start, earlier), next);
            },
            Input::Report { event } => {
                history_keeps_pair_matched(start, earlier, event);
                step_keeps_invariant(run(start, earlier), event);
            },
        }
    }
    step_keeps_invariant(run(start, inputs), next);
}

/// While the surface is stale and the window has no area, a frame consists
/// of the cleanup alone: no rebuild is asked for, nothing is acquired or
/// drawn, and the engine ends as it began, the surface still stale.
pub proof fn zero_area_frame_changes_nothing(m: RendererModel, window_extent: Extent)
    requires
        m.phase == Phase::Idle,
        m.surface_stale,
        window_extent.degenerate(),
    ensures
        m.step(FrameEvent::Begin).1 == FrameAction::Reclaim,
        m.step(FrameEvent::Begin).0.step(FrameEvent::Reclaimed { window_extent })
            == (m, FrameAction::SkipFrame),
{
}

/// The rotation of a draw is decided by the elapsed time alone, and a later
/// draw is never rotated less than an earlier one.
pub proof fn rotation_follows_elapsed_time(
    first: RendererModel,
    second: RendererModel,
    first_image: u32,
    second_image: u32,
    earlier: Elapsed,
    later: Elapsed,
)
    requires
        earlier.normalized(),
        later.normalized(),
        earlier.no_later_than(later),
    ensures
        first.draw_plan(first_image, earlier).rotation_nanos == rotation_angle(earlier),
        first.draw_plan(first_image, earlier).rotation_nanos <= second.draw_plan(
            second_image,
            later,
        ).rotation_nanos,
        earlier == later ==> first.draw_plan(first_image, earlier).rotation_nanos
            == second.draw_plan(second_image, later).rotation_nanos,
{
}

/// The state in which the engine waits for an image after it has rebuilt
/// the surface and the pipeline for `extent`.
pub open spec fn rebuilt_for(m: RendererModel, extent: Extent, image_count: u32) -> RendererModel {
    RendererModel {
        phase: Phase::Acquiring,
        surface_stale: false,
        surface_extent: extent,
        image_count,
        pipeline_extent: extent,
        ..m
    }
}

/// A frame that starts with a stale surface and a window that has an area
/// asks for exactly one rebuild of the surface, at the window's extent, then
/// for the pipeline of that extent, and only then for an image. The draw
/// that follows takes its aspect ratio and its viewport from the new extent.
pub proof fn stale_frame_rebuilds_once(
    m: RendererModel,
    window_extent: Extent,
    image_count: u32,
    image_index: u32,
    suboptimal: bool,
    elapsed: Elapsed,
)
    requires
        m.phase == Phase::Idle,
        m.surface_stale,
        !window_extent.degenerate(),
        image_count > 0,
        image_index < image_count,
    ensures
        ({
            let (m1, a1) = m.step(FrameEvent::Begin);
            let (m2, a2) = m1.step(FrameEvent::Reclaimed { window_extent });
            let (m3, a3) = m2.step(FrameEvent::SurfaceRebuilt { image_count });
            let (m4, a4) = m3.step(FrameEvent::PipelineBuilt);
            let (m5, a5) = m4.step(FrameEvent::Acquired { image_index, suboptimal, elapsed });
            &&& a1 == FrameAction::Reclaim
            &&& a2 == FrameAction::RebuildSurface { extent: window_extent }
            &&& a3 == FrameAction::BuildPipeline {
                viewport: window_extent,
                framebuffers: image_count,
            }
            &&& a4 == FrameAction::Acquire
            &&& m4 == rebuilt_for(m, window_extent, image_count)
            &&& a5 == FrameAction::Draw { plan: m4.draw_plan(image_index, elapsed) }
            &&& m4.draw_plan(image_index, elapsed).viewport == window_extent
            &&& m4.draw_plan(image_index, elapsed).projection.aspect_width
                == window_extent.width
            &&& m4.draw_plan(image_index, elapsed).projection.aspect_height
                == window_extent.height
            &&& m5.surface_stale == suboptimal
        }),
{
}

/// When acquisition finds the surface out of date, the frame is given up
/// with the surface marked stale, and the next frame rebuilds the surface
/// once before it asks for an image again.
pub proof fn out_of_date_acquisition_rebuilds_next_frame(
    m: RendererModel,
    window_extent: Extent,
    image_count: u32,
)
    requires
        m.phase == Phase::Acquiring,
        !window_extent.degenerate(),
        image_count > 0,
    ensures
        ({
            let (m0, a0) = m.step(FrameEvent::AcquireOutOfDate);
            let (m1, a1) = m0.step(FrameEvent::Begin);
            let (m2, a2) = m1.step(FrameEvent::Reclaimed { window_extent });
            let (m3, a3) = m2.step(FrameEvent::SurfaceRebuilt { image_count });
            let (m4, a4) = m3.step(FrameEvent::PipelineBuilt);
            &&& a0 == FrameAction::SkipFrame
            &&& m0.phase == Phase::Idle
            &&& m0.surface_stale
            &&& a1 == FrameAction::Reclaim
            &&& a2 == FrameAction::RebuildSurface { extent: window_extent }
            &&& a3 == FrameAction::BuildPipeline {
                viewport: window_extent,
                framebuffers: image_count,
            }
            &&& a4 == FrameAction::Acquire
            &&& m4 == rebuilt_for(m, window_extent, image_count)
        }),
{
}

/// A frame whose surface is not stale goes from the cleanup straight to the
/// acquisition: nothing is rebuilt.
pub proof fn fresh_frame_rebuilds_nothing(m: RendererModel, window_extent: Extent)
    requires
        m.phase == Phase::Idle,
        !m.surface_stale,
    ensures
        m.step(FrameEvent::Begin).0.step(FrameEvent::Reclaimed { window_extent }) == (
            RendererModel { phase: Phase::Acquiring, ..m },
            FrameAction::Acquire,
        ),
{
}

/// The largest number of reports that a frame can still take from a phase.
pub open spec fn reports_left(phase: Phase) -> nat {
    match phase {
        Phase::Idle => 0,
        Phase::Halted => 0,
        Phase::Submitting { image_index } => 1,
        Phase::Acquiring => 2,
        Phase::BuildingPipeline => 3,
        Phase::RebuildingSurface { target } => 4,
        Phase::Reclaiming => 5,
    }
}

/// A report that is out of turn changes nothing, and every report in turn
/// brings a running frame closer to its end: a frame never stalls, and it
/// is over after at most six reports.
pub proof fn frame_never_stalls(m: RendererModel, event: FrameEvent)
    ensures
        m.step(event).1 == FrameAction::Rejected ==> m.step(event).0 == m,
        m.step(event).1 != FrameAction::Rejected && m.phase != Phase::Idle ==> reports_left(
            m.step(event).0.phase,
        ) < reports_left(m.phase),
        m.step(event).1 != FrameAction::Rejected && m.phase == Phase::Idle ==> m.step(event).1
            == FrameAction::Reclaim && reports_left(m.step(event).0.phase) == 5,
        m.phase == Phase::Halted ==> m.step(event).1 == FrameAction::Rejected,
{
}

/// Whatever the submission of a frame reports, the engine stays alive: the
/// frame ends, the engine is idle again, and only a submission that went
/// through leaves work pending.
pub proof fn submission_failure_is_absorbed(m: RendererModel, event: FrameEvent)
    requires
        m.phase is Submitting,
        event == FrameEvent::Submitted || event == FrameEvent::SubmitOutOfDate || event
            == FrameEvent::SubmitFailed,
    ensures
        m.step(event).1 is Finish,
        m.step(event).0.phase == Phase::Idle,
        m.step(event).0.in_flight is Pending <==> event == FrameEvent::Submitted,
        m.step(event).0.surface_stale == (m.surface_stale || event
            == FrameEvent::SubmitOutOfDate),
        m.step(event).1->report_failure == (event == FrameEvent::SubmitFailed),
        m.step(event).0.surface_extent == m.surface_extent,
        m.step(event).0.pipeline_extent == m.pipeline_extent,
{
}

} // verus!
