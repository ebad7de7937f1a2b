use litcube::frame::{
    AcquireAction, AcquireOutcome, Extent, FrameStep, FrameToken, LoopAction, LoopEvent,
    RebuildAction, RebuildOutcome, RenderState, SubmitOutcome,
};

#[test]
fn initial_state_is_ready() {
    let e = Extent::new(800, 600);
    let s = RenderState::new(e);
    assert!(s.running);
    assert!(!s.recreate_swapchain);
    assert_eq!(s.window_extent, e);
    assert_eq!(s.target_extent, e);
    assert_eq!(s.previous_frame_end, FrameToken::Done);
    assert_eq!(s.frames_submitted, 0);
}

#[test]
fn close_request_stops_the_loop() {
    let mut s = RenderState::new(Extent::new(800, 600));
    let action = s.handle_event(LoopEvent::CloseRequested);
    assert_eq!(action, LoopAction::Stop);
    assert!(!s.running);
}

#[test]
fn redraw_renders_a_frame() {
    let mut s = RenderState::new(Extent::new(800, 600));
    let action = s.handle_event(LoopEvent::RedrawRequested);
    assert_eq!(action, LoopAction::RenderFrame);
    assert_eq!(s.begin_frame(), FrameStep::AcquireImage);
}

#[test]
fn resize_schedules_a_rebuild() {
    let mut s = RenderState::new(Extent::new(800, 600));
    let new_extent = Extent::new(1024, 768);
    let action = s.handle_event(LoopEvent::Resized { extent: new_extent });
    assert_eq!(action, LoopAction::Idle);
    assert!(s.recreate_swapchain);
    assert_eq!(s.window_extent, new_extent);
    assert_eq!(
        s.begin_frame(),
        FrameStep::RebuildTargets { extent: new_extent }
    );
}

#[test]
fn resize_then_one_frame_matches_new_extent() {
    let mut s = RenderState::new(Extent::new(800, 600));
    let new_extent = Extent::new(1024, 768);
    s.handle_event(LoopEvent::Resized { extent: new_extent });
    s.handle_event(LoopEvent::RedrawRequested);
    match s.begin_frame() {
        FrameStep::RebuildTargets { extent } => assert_eq!(extent, new_extent),
        FrameStep::AcquireImage => panic!("expected a rebuild after a resize"),
    }
    let rebuild = s.handle_rebuild(RebuildOutcome::Rebuilt { extent: new_extent });
    assert_eq!(rebuild, RebuildAction::ProceedToAcquire);
    assert_eq!(s.target_extent, new_extent);
    assert!(!s.recreate_swapchain);
    let acquire = s.handle_acquire(AcquireOutcome::Acquired {
        image_index: 1,
        suboptimal: false,
    });
    assert_eq!(acquire, AcquireAction::Submit { image_index: 1 });
    s.handle_submit(SubmitOutcome::Submitted);
    assert!(s.running);
    assert_eq!(s.target_extent, new_extent);
    assert_eq!(s.frames_submitted, 1);
}

#[test]
fn unsupported_extent_skips_the_frame_and_retries_later() {
    let mut s = RenderState::new(Extent::new(800, 600));
    s.handle_event(LoopEvent::Resized {
        extent: Extent::new(0, 0),
    });
    let action = s.handle_rebuild(RebuildOutcome::ExtentUnsupported);
    assert_eq!(action, RebuildAction::SkipFrame);
    assert!(s.recreate_swapchain);
    assert!(s.running);
}

#[test]
fn out_of_date_acquire_submits_nothing() {
    let mut s = RenderState::new(Extent::new(800, 600));
    let action = s.handle_acquire(AcquireOutcome::OutOfDate);
    assert_eq!(action, AcquireAction::SkipFrame);
    assert!(s.recreate_swapchain);
    assert_eq!(s.frames_submitted, 0);
    assert_eq!(s.previous_frame_end, FrameToken::Done);
}

#[test]
fn suboptimal_acquire_still_renders_but_schedules_a_rebuild() {
    let mut s = RenderState::new(Extent::new(800, 600));
    let action = s.handle_acquire(AcquireOutcome::Acquired {
        image_index: 2,
        suboptimal: true,
    });
    assert_eq!(action, AcquireAction::Submit { image_index: 2 });
    assert!(s.recreate_swapchain);
}

#[test]
fn successful_submission_installs_a_fresh_token() {
    let mut s = RenderState::new(Extent::new(800, 600));
    s.handle_submit(SubmitOutcome::Submitted);
    assert_eq!(s.previous_frame_end, FrameToken::Pending { frame: 0 });
    assert_eq!(s.frames_submitted, 1);
    s.handle_submit(SubmitOutcome::Submitted);
    assert_eq!(s.previous_frame_end, FrameToken::Pending { frame: 1 });
    assert_eq!(s.frames_submitted, 2);
}

#[test]
fn out_of_date_present_recycles_the_token() {
    let mut s = RenderState::new(Extent::new(800, 600));
    s.handle_submit(SubmitOutcome::Submitted);
    s.handle_submit(SubmitOutcome::OutOfDate);
    assert_eq!(s.previous_frame_end, FrameToken::Done);
    assert!(s.recreate_swapchain);
    assert!(s.running);
}

#[test]
fn other_flush_errors_drop_the_frame_and_continue() {
    let mut s = RenderState::new(Extent::new(800, 600));
    s.handle_submit(SubmitOutcome::OtherError);
    assert_eq!(s.previous_frame_end, FrameToken::Done);
    assert!(!s.recreate_swapchain);
    assert!(s.running);
}

#[test]
fn fatal_failures_abort() {
    let mut s = RenderState::new(Extent::new(800, 600));
    assert_eq!(s.handle_rebuild(RebuildOutcome::Failed), RebuildAction::Abort);
    assert!(!s.running);
    let mut s2 = RenderState::new(Extent::new(800, 600));
    assert_eq!(s2.handle_acquire(AcquireOutcome::Failed), AcquireAction::Abort);
    assert!(!s2.running);
}
