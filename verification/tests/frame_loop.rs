use ash_triangle::app_window::{AppWindow, WindowInput, WindowResponse, INITIAL_WINDOW_HEIGHT, INITIAL_WINDOW_WIDTH};
use ash_triangle::rndr::{
    AcquireResult, FrameAction, FrameEvent, FrameMachine, FramePhase, PresentResult, MAX_FRAMES_IN_FLIGHT,
};

fn begin(m: &mut FrameMachine) -> FrameAction {
    m.step(FrameEvent::Begin { window_width: 800, window_height: 600 })
}

fn full_frame(m: &mut FrameMachine, resized: bool, image_index: u32, sub_a: bool, present: PresentResult) -> FrameAction {
    assert_eq!(begin(m), FrameAction::WaitForFence { frame_index: m.frame_index });
    assert_eq!(m.step(FrameEvent::FenceSignaled { was_resized: resized }), FrameAction::AcquireImage {
        frame_index: m.frame_index
    });
    let a = m.step(FrameEvent::ImageAcquired {
        acquire_result: AcquireResult::Acquired { image_index, suboptimal: sub_a },
    });
    assert_eq!(a, FrameAction::SubmitAndPresent { frame_index: m.frame_index, image_index });
    m.step(FrameEvent::Presented { present_result: present })
}

#[test]
fn frame_slots_alternate() {
    let mut m = FrameMachine::new(3);
    assert_eq!(m.frame_index, 0);
    assert_eq!(m.phase, FramePhase::Idle);
    let a = full_frame(&mut m, false, 0, false, PresentResult::Presented { suboptimal: false });
    assert_eq!(a, FrameAction::EndFrame);
    assert_eq!(m.frame_index, 1);
    let a = full_frame(&mut m, false, 1, false, PresentResult::Presented { suboptimal: false });
    assert_eq!(a, FrameAction::EndFrame);
    assert_eq!(m.frame_index, 0);
    assert_eq!(m.phase, FramePhase::Idle);
    assert_eq!(MAX_FRAMES_IN_FLIGHT, 2);
}

#[test]
fn minimized_window_skips_frame() {
    let mut m = FrameMachine::new(3);
    assert_eq!(m.step(FrameEvent::Begin { window_width: 0, window_height: 600 }), FrameAction::MarkResized);
    assert_eq!(m.step(FrameEvent::Begin { window_width: 800, window_height: 0 }), FrameAction::MarkResized);
    assert_eq!(m.frame_index, 0);
    assert_eq!(m.phase, FramePhase::Idle);
}

#[test]
fn resize_suboptimal_and_out_of_date_recreate() {
    let mut m = FrameMachine::new(3);
    let a = full_frame(&mut m, true, 2, false, PresentResult::Presented { suboptimal: false });
    assert_eq!(a, FrameAction::RecreateSwapchain);
    assert_eq!(m.frame_index, 1);
    let a = full_frame(&mut m, false, 2, true, PresentResult::Presented { suboptimal: false });
    assert_eq!(a, FrameAction::RecreateSwapchain);
    let a = full_frame(&mut m, false, 0, false, PresentResult::Presented { suboptimal: true });
    assert_eq!(a, FrameAction::RecreateSwapchain);
    let a = full_frame(&mut m, false, 0, false, PresentResult::OutOfDate);
    assert_eq!(a, FrameAction::RecreateSwapchain);
    assert_eq!(m.frame_index, 0);
}

#[test]
fn acquire_out_of_date_keeps_slot() {
    let mut m = FrameMachine::new(3);
    begin(&mut m);
    m.step(FrameEvent::FenceSignaled { was_resized: false });
    let a = m.step(FrameEvent::ImageAcquired { acquire_result: AcquireResult::OutOfDate });
    assert_eq!(a, FrameAction::RecreateSwapchain);
    assert_eq!(m.frame_index, 0);
    assert_eq!(m.phase, FramePhase::Idle);
    assert!(m.swapchain_recreated(4));
    assert_eq!(m.image_count, 4);
}

#[test]
fn acquire_not_ready_ends_frame() {
    let mut m = FrameMachine::new(3);
    begin(&mut m);
    m.step(FrameEvent::FenceSignaled { was_resized: true });
    let a = m.step(FrameEvent::ImageAcquired { acquire_result: AcquireResult::NotReady });
    assert_eq!(a, FrameAction::EndFrame);
    assert_eq!(m.frame_index, 0);
}

#[test]
fn image_index_past_the_images_is_not_accepted() {
    let mut m = FrameMachine::new(2);
    begin(&mut m);
    m.step(FrameEvent::FenceSignaled { was_resized: false });
    let past = FrameEvent::ImageAcquired { acquire_result: AcquireResult::Acquired { image_index: 2, suboptimal: false } };
    let last = FrameEvent::ImageAcquired { acquire_result: AcquireResult::Acquired { image_index: 1, suboptimal: false } };
    assert!(!m.accepts_event(&past));
    assert!(m.accepts_event(&last));
    assert!(m.accepts_event(&FrameEvent::ImageAcquired { acquire_result: AcquireResult::OutOfDate }));
}

#[test]
fn accepts_only_the_expected_event() {
    let mut m = FrameMachine::new(2);
    let fence = FrameEvent::FenceSignaled { was_resized: false };
    let b = FrameEvent::Begin { window_width: 1, window_height: 1 };
    assert!(m.accepts_event(&b));
    assert!(!m.accepts_event(&fence));
    m.step(b);
    assert!(m.accepts_event(&fence));
    assert!(!m.accepts_event(&b));
}

#[test]
fn recreation_keeps_one_view_and_semaphore_per_image() {
    let mut m = FrameMachine::new(3);
    assert_eq!((m.image_count, m.image_view_count, m.render_semaphore_count), (3, 3, 3));
    assert!(m.swapchain_recreated(4));
    assert_eq!((m.image_count, m.image_view_count, m.render_semaphore_count), (4, 4, 4));
    assert!(!m.swapchain_recreated(4));
    assert_eq!((m.image_count, m.image_view_count, m.render_semaphore_count), (4, 4, 4));
    assert!(m.swapchain_recreated(2));
    assert_eq!((m.image_count, m.image_view_count, m.render_semaphore_count), (2, 2, 2));
    assert_eq!(m.frame_index, 0);
}

#[test]
fn window_events() {
    let mut w = AppWindow::new();
    assert_eq!(w, AppWindow { width: INITIAL_WINDOW_WIDTH, height: INITIAL_WINDOW_HEIGHT, is_resized: false });
    assert_eq!((w.width, w.height), (1920, 1080));
    assert_eq!(w.window_event(WindowInput::Other), WindowResponse::Continue);
    assert_eq!(w.window_event(WindowInput::Resized { width: 640, height: 480 }), WindowResponse::Continue);
    assert_eq!(w, AppWindow { width: 640, height: 480, is_resized: true });
    assert_eq!(w.window_event(WindowInput::Other), WindowResponse::Continue);
    assert!(w.is_resized);
    assert!(w.take_resized());
    assert!(!w.take_resized());
    w.mark_resized();
    assert!(w.is_resized);
    assert_eq!(w.window_event(WindowInput::CloseRequested), WindowResponse::ShutdownAndExit);
    assert_eq!(w.window_event(WindowInput::EscapePressed), WindowResponse::ShutdownAndExit);
}

#[test]
fn resize_reaches_next_frame() {
    let mut w = AppWindow::new();
    let mut m = FrameMachine::new(3);
    w.window_event(WindowInput::Resized { width: 1024, height: 768 });
    let a = m.step(FrameEvent::Begin { window_width: w.width, window_height: w.height });
    assert_eq!(a, FrameAction::WaitForFence { frame_index: 0 });
    m.step(FrameEvent::FenceSignaled { was_resized: w.take_resized() });
    m.step(FrameEvent::ImageAcquired { acquire_result: AcquireResult::Acquired { image_index: 0, suboptimal: false } });
    let a = m.step(FrameEvent::Presented { present_result: PresentResult::Presented { suboptimal: false } });
    assert_eq!(a, FrameAction::RecreateSwapchain);
    assert!(!w.is_resized);
}

#[test]
fn sync_objects_per_slot_and_per_image_with_signaled_fences() {
    let plan = ash_triangle::rndr::vk_create_sync_objects(3);
    assert_eq!(plan.present_complete_semaphore_count, MAX_FRAMES_IN_FLIGHT);
    assert_eq!(plan.fence_count, MAX_FRAMES_IN_FLIGHT);
    assert_eq!(plan.render_finished_semaphore_count, 3);
    assert_eq!(plan.fence_flags, ash_triangle::vk_flags::FENCE_CREATE_SIGNALED);
    assert_eq!(ash_triangle::rndr::vk_create_sync_objects(5).render_finished_semaphore_count, 5);
}

#[test]
fn swapchain_recreated_keeps_frame_slot() {
    let mut m = FrameMachine::new(3);
    begin(&mut m);
    m.step(FrameEvent::FenceSignaled { was_resized: false });
    m.step(FrameEvent::ImageAcquired {
        acquire_result: AcquireResult::Acquired { image_index: 1, suboptimal: false },
    });
    m.step(FrameEvent::Presented { present_result: PresentResult::OutOfDate });
    assert_eq!(m.frame_index, 1);
    assert!(m.swapchain_recreated(4));
    assert_eq!(m.frame_index, 1);
    assert_eq!((m.image_count, m.image_view_count, m.render_semaphore_count), (4, 4, 4));
    assert!(!m.swapchain_recreated(4));
    assert_eq!(m.phase, FramePhase::Idle);
}
