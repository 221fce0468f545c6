use poritzcraft::commands::{record_pass, Command};
use poritzcraft::geometry::{
    cube_indices, cube_normals, cube_tex_coords, cube_vertices, instance_grid,
};
use poritzcraft::renderer::{
    ClearColor, DrawPlan, Extent, Fatal, FrameAction, FrameEvent, InFlight, Phase,
    PoritzCraftRenderer, Projection,
};
use poritzcraft::resources::{InitError, ResourceSet};
use poritzcraft::texture::DecodedTexture;
use poritzcraft::timing::Elapsed;

fn landscape() -> ResourceSet {
    let texture = DecodedTexture::new(1, 1, vec![255, 255, 255, 255]).unwrap();
    ResourceSet::build(
        cube_vertices(),
        cube_normals(),
        cube_tex_coords(),
        cube_indices(),
        instance_grid(100, 1, 100),
        texture,
    )
    .unwrap()
}

fn engine(width: u32, height: u32) -> PoritzCraftRenderer {
    PoritzCraftRenderer::new(&landscape(), Extent { width, height }, 3).unwrap()
}

fn at(secs: u64, subsec_nanos: u32) -> Elapsed {
    Elapsed::new(secs, subsec_nanos).unwrap()
}

/// Runs one frame against a backend that acquires `image` and reports
/// `submit` for the submission; returns the actions in order.
fn frame(
    engine: &mut PoritzCraftRenderer,
    window: Extent,
    image: u32,
    elapsed: Elapsed,
    submit: FrameEvent,
) -> Vec<FrameAction> {
    let mut actions = Vec::new();
    let mut event = FrameEvent::Begin;
    loop {
        let action = engine.render(event);
        actions.push(action);
        event = match action {
            FrameAction::Reclaim => FrameEvent::Reclaimed { window_extent: window },
            FrameAction::RebuildSurface { .. } => FrameEvent::SurfaceRebuilt { image_count: 3 },
            FrameAction::BuildPipeline { .. } => FrameEvent::PipelineBuilt,
            FrameAction::Acquire => FrameEvent::Acquired {
                image_index: image,
                suboptimal: false,
                elapsed,
            },
            FrameAction::Draw { .. } => submit,
            _ => return actions,
        };
    }
}

fn draws(actions: &[FrameAction]) -> Vec<DrawPlan> {
    let mut plans = Vec::new();
    for action in actions {
        if let FrameAction::Draw { plan } = action {
            plans.push(*plan);
        }
    }
    plans
}

#[test]
fn new_engine_is_idle_and_fresh() {
    let e = engine(800, 600);
    let m = e.state();
    assert_eq!(m.phase, Phase::Idle);
    assert!(!m.surface_stale);
    assert!(!e.surface_stale());
    assert_eq!(m.surface_extent, Extent { width: 800, height: 600 });
    assert_eq!(m.pipeline_extent, Extent { width: 800, height: 600 });
    assert_eq!(m.image_count, 3);
    assert_eq!(m.in_flight, InFlight::Complete);
    assert_eq!(m.index_count, 36);
    assert_eq!(m.instance_count, 10_000);
}

#[test]
fn new_refuses_surface_without_area() {
    let r = PoritzCraftRenderer::new(&landscape(), Extent { width: 0, height: 600 }, 3);
    assert_eq!(r.err(), Some(InitError::DegenerateExtent));
    let r = PoritzCraftRenderer::new(&landscape(), Extent { width: 800, height: 0 }, 0);
    assert_eq!(r.err(), Some(InitError::DegenerateExtent));
}

#[test]
fn new_refuses_surface_without_images() {
    let r = PoritzCraftRenderer::new(&landscape(), Extent { width: 800, height: 600 }, 0);
    assert_eq!(r.err(), Some(InitError::NoSurfaceImages));
}

#[test]
fn frame_at_800_by_600_draws_everything_once() {
    let mut e = engine(800, 600);
    let window = Extent { width: 800, height: 600 };
    let actions = frame(&mut e, window, 1, at(2, 500_000_000), FrameEvent::Submitted);
    assert_eq!(
        actions,
        vec![
            FrameAction::Reclaim,
            FrameAction::Acquire,
            FrameAction::Draw {
                plan: DrawPlan {
                    framebuffer: 1,
                    viewport: window,
                    clear_color: ClearColor { red: 0, green: 0, blue: 1, alpha: 1 },
                    clear_depth: 1,
                    rotation_nanos: 2_500_000_000,
                    projection: Projection {
                        field_of_view_degrees: 90,
                        aspect_width: 800,
                        aspect_height: 600,
                        near_hundredths: 1,
                        far_hundredths: 10_000,
                    },
                    chain_after: InFlight::Complete,
                    index_count: 36,
                    instance_count: 10_000,
                },
            },
            FrameAction::Finish {
                in_flight: InFlight::Pending { image_index: 1 },
                report_failure: false,
            },
        ]
    );
    assert_eq!(draws(&actions).len(), 1);
    let commands = record_pass(&draws(&actions)[0]);
    let drawn: Vec<&Command> =
        commands.iter().filter(|c| matches!(c, Command::DrawIndexed { .. })).collect();
    assert_eq!(
        drawn,
        vec![&Command::DrawIndexed {
            index_count: cube_indices().len() as u32,
            instance_count: instance_grid(100, 1, 100).len() as u32,
        }]
    );
    assert_eq!(commands[0], Command::BeginRenderPass {
        framebuffer: 1,
        clear_color: ClearColor { red: 0, green: 0, blue: 1, alpha: 1 },
        clear_depth: 1,
    });
    assert_eq!(e.state().phase, Phase::Idle);
    assert_eq!(e.state().in_flight, InFlight::Pending { image_index: 1 });
    assert!(!e.surface_stale());
}

#[test]
fn resize_to_zero_skips_frame_and_keeps_flag() {
    let mut e = engine(800, 600);
    e.notify_resized();
    let before = e.state();
    assert!(before.surface_stale);
    let window = Extent { width: 0, height: 0 };
    let actions = frame(&mut e, window, 0, at(0, 0), FrameEvent::Submitted);
    assert_eq!(actions, vec![FrameAction::Reclaim, FrameAction::SkipFrame]);
    assert_eq!(e.state(), before);
    assert!(e.surface_stale());
    assert_eq!(e.state().surface_extent, Extent { width: 800, height: 600 });
}

#[test]
fn zero_width_or_zero_height_alone_skips_too() {
    for window in [Extent { width: 0, height: 600 }, Extent { width: 800, height: 0 }] {
        let mut e = engine(800, 600);
        e.notify_resized();
        let actions = frame(&mut e, window, 0, at(0, 0), FrameEvent::Submitted);
        assert_eq!(actions, vec![FrameAction::Reclaim, FrameAction::SkipFrame]);
        assert!(e.surface_stale());
    }
}

#[test]
fn zero_area_window_is_ignored_while_surface_is_fresh() {
    let mut e = engine(800, 600);
    let window = Extent { width: 0, height: 0 };
    let actions = frame(&mut e, window, 0, at(0, 0), FrameEvent::Submitted);
    assert_eq!(actions[1], FrameAction::Acquire);
    assert_eq!(draws(&actions).len(), 1);
}

#[test]
fn two_failed_submissions_then_a_good_frame() {
    let mut e = engine(800, 600);
    let window = Extent { width: 800, height: 600 };
    for _ in 0..2 {
        let actions = frame(&mut e, window, 0, at(1, 0), FrameEvent::SubmitFailed);
        assert_eq!(
            actions.last(),
            Some(&FrameAction::Finish { in_flight: InFlight::Complete, report_failure: true })
        );
        assert_eq!(e.state().phase, Phase::Idle);
        assert_eq!(e.state().in_flight, InFlight::Complete);
        assert!(!e.surface_stale());
    }
    let actions = frame(&mut e, window, 2, at(3, 0), FrameEvent::Submitted);
    assert_eq!(actions.len(), 4);
    assert_eq!(draws(&actions).len(), 1);
    assert_eq!(
        actions.last(),
        Some(&FrameAction::Finish {
            in_flight: InFlight::Pending { image_index: 2 },
            report_failure: false,
        })
    );
    assert_eq!(e.state().in_flight, InFlight::Pending { image_index: 2 });
}

#[test]
fn out_of_date_submission_marks_surface_stale() {
    let mut e = engine(800, 600);
    let window = Extent { width: 800, height: 600 };
    let actions = frame(&mut e, window, 0, at(1, 0), FrameEvent::SubmitOutOfDate);
    assert_eq!(
        actions.last(),
        Some(&FrameAction::Finish { in_flight: InFlight::Complete, report_failure: false })
    );
    assert!(e.surface_stale());
    assert_eq!(e.state().in_flight, InFlight::Complete);
}

#[test]
fn out_of_date_acquisition_then_one_rebuild() {
    let mut e = engine(800, 600);
    assert_eq!(e.render(FrameEvent::Begin), FrameAction::Reclaim);
    let window = Extent { width: 1024, height: 768 };
    assert_eq!(e.render(FrameEvent::Reclaimed { window_extent: window }), FrameAction::Acquire);
    assert_eq!(e.render(FrameEvent::AcquireOutOfDate), FrameAction::SkipFrame);
    assert!(e.surface_stale());
    assert_eq!(e.state().phase, Phase::Idle);

    let actions = frame(&mut e, window, 0, at(4, 0), FrameEvent::Submitted);
    assert_eq!(actions.len(), 6);
    assert_eq!(actions[0], FrameAction::Reclaim);
    assert_eq!(actions[1], FrameAction::RebuildSurface { extent: window });
    assert_eq!(actions[2], FrameAction::BuildPipeline { viewport: window, framebuffers: 3 });
    assert_eq!(actions[3], FrameAction::Acquire);
    let rebuilds = actions
        .iter()
        .filter(|a| matches!(a, FrameAction::RebuildSurface { .. }))
        .count();
    assert_eq!(rebuilds, 1);
    let plan = draws(&actions)[0];
    assert_eq!(plan.viewport, window);
    assert_eq!(plan.projection.aspect_width, 1024);
    assert_eq!(plan.projection.aspect_height, 768);
    assert!(!e.surface_stale());
    assert_eq!(e.state().surface_extent, window);
    assert_eq!(e.state().pipeline_extent, window);
}

#[test]
fn suboptimal_acquisition_draws_and_rebuilds_next_frame() {
    let mut e = engine(800, 600);
    let window = Extent { width: 640, height: 480 };
    e.render(FrameEvent::Begin);
    e.render(FrameEvent::Reclaimed { window_extent: window });
    let action = e.render(FrameEvent::Acquired {
        image_index: 0,
        suboptimal: true,
        elapsed: at(0, 1),
    });
    match action {
        FrameAction::Draw { plan } => {
            assert_eq!(plan.viewport, Extent { width: 800, height: 600 });
            assert_eq!(plan.projection.aspect_width, 800);
            assert_eq!(plan.projection.aspect_height, 600);
            assert_eq!(plan.rotation_nanos, 1);
        }
        other => panic!("expected a draw, got {:?}", other),
    }
    assert!(e.surface_stale());
    e.render(FrameEvent::Submitted);
    let actions = frame(&mut e, window, 0, at(1, 0), FrameEvent::Submitted);
    assert_eq!(actions[1], FrameAction::RebuildSurface { extent: window });
    assert_eq!(draws(&actions)[0].projection.aspect_width, 640);
    assert_eq!(draws(&actions)[0].projection.aspect_height, 480);
}

#[test]
fn unsupported_extent_skips_frame_and_retries() {
    let mut e = engine(800, 600);
    e.notify_resized();
    let window = Extent { width: 5000, height: 5000 };
    e.render(FrameEvent::Begin);
    assert_eq!(
        e.render(FrameEvent::Reclaimed { window_extent: window }),
        FrameAction::RebuildSurface { extent: window }
    );
    assert_eq!(e.state().phase, Phase::RebuildingSurface { target: window });
    assert_eq!(e.render(FrameEvent::SurfaceUnsupported), FrameAction::SkipFrame);
    assert!(e.surface_stale());
    assert_eq!(e.state().phase, Phase::Idle);
    assert_eq!(e.state().surface_extent, Extent { width: 800, height: 600 });
    assert_eq!(e.state().pipeline_extent, Extent { width: 800, height: 600 });
    let actions = frame(&mut e, window, 0, at(1, 0), FrameEvent::Submitted);
    assert_eq!(actions[1], FrameAction::RebuildSurface { extent: window });
}

#[test]
fn fatal_reports_halt_the_engine() {
    let window = Extent { width: 800, height: 600 };

    let mut e = engine(800, 600);
    e.render(FrameEvent::Begin);
    e.render(FrameEvent::Reclaimed { window_extent: window });
    assert_eq!(
        e.render(FrameEvent::AcquireFailed),
        FrameAction::Abort { cause: Fatal::Acquisition }
    );
    assert_eq!(e.state().phase, Phase::Halted);
    assert_eq!(e.render(FrameEvent::Begin), FrameAction::Rejected);

    let mut e = engine(800, 600);
    e.render(FrameEvent::Begin);
    e.render(FrameEvent::Reclaimed { window_extent: window });
    let action =
        e.render(FrameEvent::Acquired { image_index: 3, suboptimal: false, elapsed: at(0, 0) });
    assert_eq!(action, FrameAction::Abort { cause: Fatal::ImageOutOfRange });

    let mut e = engine(800, 600);
    e.notify_resized();
    e.render(FrameEvent::Begin);
    e.render(FrameEvent::Reclaimed { window_extent: window });
    assert_eq!(
        e.render(FrameEvent::SurfaceFailed),
        FrameAction::Abort { cause: Fatal::SurfaceRebuild }
    );

    let mut e = engine(800, 600);
    e.notify_resized();
    e.render(FrameEvent::Begin);
    e.render(FrameEvent::Reclaimed { window_extent: window });
    assert_eq!(
        e.render(FrameEvent::SurfaceRebuilt { image_count: 0 }),
        FrameAction::Abort { cause: Fatal::NoSurfaceImages }
    );

    let mut e = engine(800, 600);
    e.notify_resized();
    e.render(FrameEvent::Begin);
    e.render(FrameEvent::Reclaimed { window_extent: window });
    e.render(FrameEvent::SurfaceRebuilt { image_count: 2 });
    assert_eq!(e.state().phase, Phase::BuildingPipeline);
    assert_eq!(
        e.render(FrameEvent::PipelineFailed),
        FrameAction::Abort { cause: Fatal::PipelineBuild }
    );
    assert_eq!(e.state().phase, Phase::Halted);
}

#[test]
fn report_out_of_turn_is_rejected_and_changes_nothing() {
    let mut e = engine(800, 600);
    let before = e.state();
    for event in [
        FrameEvent::Reclaimed { window_extent: Extent { width: 1, height: 1 } },
        FrameEvent::SurfaceRebuilt { image_count: 2 },
        FrameEvent::SurfaceUnsupported,
        FrameEvent::SurfaceFailed,
        FrameEvent::PipelineBuilt,
        FrameEvent::PipelineFailed,
        FrameEvent::Acquired { image_index: 0, suboptimal: false, elapsed: at(0, 0) },
        FrameEvent::AcquireOutOfDate,
        FrameEvent::AcquireFailed,
        FrameEvent::Submitted,
        FrameEvent::SubmitOutOfDate,
        FrameEvent::SubmitFailed,
    ] {
        assert_eq!(e.render(event), FrameAction::Rejected);
        assert_eq!(e.state(), before);
    }
    e.render(FrameEvent::Begin);
    assert_eq!(e.render(FrameEvent::Begin), FrameAction::Rejected);
    assert_eq!(e.state().phase, Phase::Reclaiming);
}

#[test]
fn notify_resized_only_sets_the_flag() {
    let mut e = engine(800, 600);
    let mut expected = e.state();
    expected.surface_stale = true;
    e.notify_resized();
    assert_eq!(e.state(), expected);
    e.notify_resized();
    assert_eq!(e.state(), expected);
}

#[test]
fn surface_and_pipeline_match_at_every_draw() {
    let mut e = engine(800, 600);
    let sizes = [(800u32, 600u32), (0, 0), (300, 200), (300, 200), (0, 10), (1920, 1080)];
    let mut secs: u64 = 0;
    for (round, (width, height)) in sizes.iter().enumerate() {
        if round % 2 == 1 {
            e.notify_resized();
        }
        let window = Extent { width: *width, height: *height };
        let submit = if round % 3 == 0 { FrameEvent::SubmitOutOfDate } else { FrameEvent::Submitted };
        let actions = frame(&mut e, window, (round % 3) as u32, at(secs, 0), submit);
        for plan in draws(&actions) {
            assert_eq!(plan.viewport, e.state().surface_extent);
            assert_eq!(plan.viewport, e.state().pipeline_extent);
            assert_eq!(plan.projection.aspect_width, e.state().surface_extent.width);
            assert_eq!(plan.projection.aspect_height, e.state().surface_extent.height);
            assert!(plan.projection.aspect_height > 0);
            assert!(plan.framebuffer < e.state().image_count);
        }
        assert_eq!(e.state().surface_extent, e.state().pipeline_extent);
        secs += 1;
    }
    assert_eq!(e.state().surface_extent, Extent { width: 1920, height: 1080 });
}

#[test]
fn same_elapsed_time_gives_same_rotation() {
    let mut e = engine(800, 600);
    let window = Extent { width: 800, height: 600 };
    let first = draws(&frame(&mut e, window, 0, at(7, 250), FrameEvent::Submitted))[0];
    let second = draws(&frame(&mut e, window, 1, at(7, 250), FrameEvent::Submitted))[0];
    let third = draws(&frame(&mut e, window, 2, at(7, 251), FrameEvent::Submitted))[0];
    assert_eq!(first.rotation_nanos, 7_000_000_250);
    assert_eq!(first.rotation_nanos, second.rotation_nanos);
    assert!(second.rotation_nanos <= third.rotation_nanos);
    assert_eq!(third.rotation_nanos, 7_000_000_251);
}

#[test]
fn extent_is_degenerate_when_a_side_is_zero() {
    assert!(Extent { width: 0, height: 0 }.is_degenerate());
    assert!(Extent { width: 0, height: 5 }.is_degenerate());
    assert!(Extent { width: 5, height: 0 }.is_degenerate());
    assert!(!Extent { width: 1, height: 1 }.is_degenerate());
}

#[test]
fn submission_is_chained_behind_the_previous_frame() {
    let mut e = engine(800, 600);
    let window = Extent { width: 800, height: 600 };
    let first = draws(&frame(&mut e, window, 2, at(0, 0), FrameEvent::Submitted))[0];
    assert_eq!(first.chain_after, InFlight::Complete);
    let second = draws(&frame(&mut e, window, 0, at(0, 0), FrameEvent::SubmitFailed))[0];
    assert_eq!(second.chain_after, InFlight::Pending { image_index: 2 });
    let third = draws(&frame(&mut e, window, 1, at(0, 0), FrameEvent::Submitted))[0];
    assert_eq!(third.chain_after, InFlight::Complete);
}
