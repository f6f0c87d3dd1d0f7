use framecore::submit::{
    AcquireAction, AcquireOutcome, FrameParams, FrameSubmitter, InFlightToken, PresentOutcome,
    QuadVertex, RenderCommand, TickPhase, TickStart, fullscreen_quad,
};
use framecore::surface::{Extent, PresentationSurface};

fn extent(width: u32, height: u32) -> Extent {
    Extent { width, height }
}

fn submitter(width: u32, height: u32, images: usize) -> FrameSubmitter {
    FrameSubmitter::new(PresentationSurface::new(extent(width, height), images))
}

fn params(width: u32, height: u32) -> FrameParams<[f32; 3], u8> {
    FrameParams {
        screen: extent(width, height),
        position: [-0.5, 3.0, 8.0],
        uu: [1.0, 0.0, 0.0],
        vv: [0.0, 1.0, 0.0],
        ww: [0.0, 0.0, -1.0],
        materials: 0,
    }
}

#[test]
fn new_submitter_is_idle_with_satisfied_token() {
    let s = submitter(800, 600, 2);
    assert_eq!(s.token, InFlightToken::Satisfied);
    assert_eq!(s.phase, TickPhase::Idle);
    assert!(!s.surface.stale);
}

#[test]
fn happy_tick_submits_and_replaces_token() {
    let mut s = submitter(800, 600, 2);
    let go = s.begin_tick(extent(800, 600));
    assert_eq!(go, TickStart::Proceed);
    let action = s.on_acquire(AcquireOutcome::Acquired { image_index: 1, suboptimal: false });
    assert_eq!(action, AcquireAction::Record { image_index: 1 });
    assert_eq!(s.phase, TickPhase::Drawing { image_index: 1 });
    assert!(!s.surface.stale);
    let cmds = s.record_frame(params(800, 600));
    assert_eq!(cmds.len(), 7);
    s.on_present(PresentOutcome::Presented);
    assert_eq!(s.token, InFlightToken::Pending);
    assert_eq!(s.phase, TickPhase::Idle);
    assert!(!s.surface.stale);
}

#[test]
fn zero_extent_skips_the_tick() {
    let mut s = submitter(800, 600, 2);
    let go = s.begin_tick(extent(0, 0));
    assert_eq!(go, TickStart::Skip);
    assert_eq!(s.phase, TickPhase::Idle);
}

#[test]
fn out_of_date_acquire_abandons_and_next_tick_rebuilds() {
    let mut s = submitter(800, 600, 2);
    assert_eq!(s.begin_tick(extent(800, 600)), TickStart::Proceed);
    let action = s.on_acquire(AcquireOutcome::OutOfDate);
    assert_eq!(action, AcquireAction::Abandon);
    assert!(s.surface.stale);
    assert_eq!(s.phase, TickPhase::Idle);
    // The next tick rebuilds at the window's current extent before acquiring.
    assert_eq!(s.begin_tick(extent(640, 480)), TickStart::Proceed);
    assert!(!s.surface.stale);
    assert_eq!(s.surface.extent, extent(640, 480));
    assert_eq!(s.surface.viewport, extent(640, 480));
    for fb in &s.surface.framebuffers {
        assert_eq!(*fb, extent(640, 480));
    }
    assert_eq!(s.phase, TickPhase::Acquiring);
}

#[test]
fn suboptimal_acquire_still_draws_but_marks_stale() {
    let mut s = submitter(800, 600, 2);
    assert_eq!(s.begin_tick(extent(800, 600)), TickStart::Proceed);
    let action = s.on_acquire(AcquireOutcome::Acquired { image_index: 0, suboptimal: true });
    assert_eq!(action, AcquireAction::Record { image_index: 0 });
    assert_eq!(s.phase, TickPhase::Drawing { image_index: 0 });
    assert!(s.surface.stale);
    s.on_present(PresentOutcome::Presented);
    assert_eq!(s.token, InFlightToken::Pending);
    assert!(s.surface.stale);
}

#[test]
fn out_of_date_present_resets_the_token() {
    let mut s = submitter(800, 600, 2);
    assert_eq!(s.begin_tick(extent(800, 600)), TickStart::Proceed);
    s.on_acquire(AcquireOutcome::Acquired { image_index: 0, suboptimal: false });
    s.record_frame(params(800, 600));
    s.on_present(PresentOutcome::OutOfDate);
    assert_eq!(s.token, InFlightToken::Satisfied);
    assert!(s.surface.stale);
    assert_eq!(s.phase, TickPhase::Idle);
    // Only staleness and the token were carried forward.
    assert_eq!(s.surface.extent, extent(800, 600));
    assert_eq!(s.surface.viewport, extent(800, 600));
    assert_eq!(s.surface.framebuffers.len(), 2);
}

#[test]
fn resize_notification_marks_stale_and_rebuild_happens_on_begin() {
    let mut s = submitter(800, 600, 3);
    s.notify_resize();
    assert!(s.surface.stale);
    assert_eq!(s.begin_tick(extent(1920, 1080)), TickStart::Proceed);
    assert!(!s.surface.stale);
    assert_eq!(s.surface.viewport, extent(1920, 1080));
    assert_eq!(s.surface.framebuffers.len(), 3);
}

#[test]
fn recorded_commands_follow_the_protocol_order() {
    let mut s = submitter(800, 600, 2);
    s.begin_tick(extent(800, 600));
    s.on_acquire(AcquireOutcome::Acquired { image_index: 1, suboptimal: false });
    let p = params(800, 600);
    let cmds = s.record_frame(p.clone());
    let expected: Vec<RenderCommand<[f32; 3], u8>> = vec![
        RenderCommand::BeginRenderPass { framebuffer_index: 1 },
        RenderCommand::SetViewport { extent: extent(800, 600) },
        RenderCommand::PushFrameParams { params: p },
        RenderCommand::BindPipeline,
        RenderCommand::BindVertexBuffer { vertex_count: 6 },
        RenderCommand::Draw { vertices: 6, instances: 1, first_vertex: 0, first_instance: 0 },
        RenderCommand::EndRenderPass,
    ];
    assert_eq!(cmds, expected);
}

#[test]
fn fullscreen_quad_spans_clip_space() {
    let quad = fullscreen_quad();
    let expected = vec![
        QuadVertex { x: -1, y: -1 },
        QuadVertex { x: -1, y: 1 },
        QuadVertex { x: 1, y: -1 },
        QuadVertex { x: 1, y: 1 },
        QuadVertex { x: 1, y: -1 },
        QuadVertex { x: -1, y: 1 },
    ];
    assert_eq!(quad, expected);
}
