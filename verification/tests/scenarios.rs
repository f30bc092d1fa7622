//! Whole-session scenarios driven through the engine against a simulated
//! presentation engine.

use framepace::engine::{AcquireAction, AcquireOutcome, Engine, SessionResource};
use framepace::frame::{FrameEnd, FrameSlot, PresentOutcome};
use framepace::recorder::{RecordAction, RecordStrategy};
use framepace::surface::{PresentMode, SurfaceCapabilities, SurfaceFormat, SwapchainSupport};

fn surface_support(min_images: u32, width: u32, height: u32) -> SwapchainSupport {
    SwapchainSupport {
        capabilities: SurfaceCapabilities {
            min_image_count: min_images,
            max_image_count: 8,
            current_width: width,
            current_height: height,
            min_width: 1,
            min_height: 1,
            max_width: 4096,
            max_height: 4096,
        },
        formats: vec![SurfaceFormat { format: 50, color_space: 0 }],
        present_modes: vec![PresentMode::Fifo],
    }
}

fn two_slots() -> Vec<FrameSlot> {
    vec![
        FrameSlot { image_acquired: 100, render_complete: 200, in_flight: 1 },
        FrameSlot { image_acquired: 101, render_complete: 201, in_flight: 2 },
    ]
}

/// Runs one frame against a simulated device that acquires `image` and
/// answers presentation with `outcome`; returns what the frame ended with.
fn run_frame(engine: &mut Engine, image: usize, outcome: PresentOutcome) -> FrameEnd {
    let fence = engine.begin_frame().expect("not paused");
    assert!(fence == 1 || fence == 2);
    match engine.on_acquired(AcquireOutcome::Acquired { image }).unwrap() {
        AcquireAction::Proceed { wait: _ } => {},
        AcquireAction::RebuildFirst => panic!("acquire did not report out of date"),
    }
    let _what = engine.record_commands();
    let plan = engine.submit_frame();
    assert_eq!(plan.fence, fence);
    // The plan names the slot's own signals and the claimed image.
    assert_eq!(plan.wait_image_acquired, if fence == 1 { 100 } else { 101 });
    assert_eq!(plan.signal_render_complete, if fence == 1 { 200 } else { 201 });
    assert_eq!(plan.image, image);
    engine.present_result(outcome)
}

#[test]
fn ten_frames_with_a_resize_at_frame_five() {
    // Two frame slots over an initial three-image swapchain.
    let sup = surface_support(2, 640, 480);
    let (mut engine, _plan) =
        Engine::initialize(&sup, 640, 480, two_slots(), RecordStrategy::ReRecordPerFrame, false).unwrap();
    assert_eq!(engine.swapchain.config.image_count, 3);

    let mut rebuilds = 0;
    let mut image: usize = 0;
    for frame in 1..=10 {
        // Frames 1 to 4 proceed with the slot index cycling 0, 1, 0, 1.
        if frame <= 4 {
            assert_eq!(engine.scheduler.frame, (frame - 1) % 2);
        }
        if frame == 5 {
            engine.notify_resized(800, 600);
        }
        let end = run_frame(&mut engine, image, PresentOutcome::Success);
        image = (image + 1) % 3;
        match end {
            FrameEnd::Continue => {},
            FrameEnd::NeedRebuild => {
                let new_sup = surface_support(2, 800, 600);
                engine.rebuild(&new_sup, 800, 600).unwrap();
                rebuilds += 1;
                // The table is reset to the new image count, all unheld.
                assert_eq!(engine.scheduler.images_in_flight.len(), 3);
                assert!(engine.scheduler.images_in_flight.iter().all(|e| e.is_none()));
                image = 0;
            },
            FrameEnd::Fatal => panic!("no fatal outcome was injected"),
        }
    }
    assert_eq!(rebuilds, 1, "the resize triggers exactly one rebuild");
    assert_eq!(engine.swapchain.generation, 2);
    let (generation_td, session_td) = engine.shutdown();
    assert_eq!(generation_td.len(), 6 + 6 * 3);
    assert_eq!(session_td.len(), 16);
    assert_eq!(engine.swapchain.outstanding(), 0);
}

#[test]
fn present_out_of_date_triggers_exactly_one_rebuild() {
    let sup = surface_support(2, 640, 480);
    let (mut engine, _plan) =
        Engine::initialize(&sup, 640, 480, two_slots(), RecordStrategy::BakeOnce, false).unwrap();
    let end = run_frame(&mut engine, 0, PresentOutcome::OutOfDate);
    assert_eq!(end, FrameEnd::NeedRebuild);
    engine.rebuild(&surface_support(2, 640, 480), 640, 480).unwrap();
    assert_eq!(engine.swapchain.generation, 2);
    let end2 = run_frame(&mut engine, 0, PresentOutcome::Success);
    assert_eq!(end2, FrameEnd::Continue);
}

#[test]
fn acquire_out_of_date_rebuilds_without_advancing() {
    let sup = surface_support(2, 640, 480);
    let (mut engine, _plan) =
        Engine::initialize(&sup, 640, 480, two_slots(), RecordStrategy::BakeOnce, false).unwrap();
    let slot_before = engine.scheduler.frame;
    engine.begin_frame().unwrap();
    let act = engine.on_acquired(AcquireOutcome::OutOfDate).unwrap();
    assert_eq!(act, AcquireAction::RebuildFirst);
    assert_eq!(engine.scheduler.frame, slot_before);
    engine.rebuild(&sup, 640, 480).unwrap();
    let end = run_frame(&mut engine, 1, PresentOutcome::Success);
    assert_eq!(end, FrameEnd::Continue);
}

#[test]
fn zero_extent_resize_pauses_rendering() {
    let sup = surface_support(2, 640, 480);
    let (mut engine, _plan) =
        Engine::initialize(&sup, 640, 480, two_slots(), RecordStrategy::BakeOnce, false).unwrap();
    engine.notify_resized(0, 480);
    // While paused, no frame is started: no acquire, submit or present
    // decision is handed out.
    for _ in 0..3 {
        assert_eq!(engine.begin_frame(), None);
    }
    // A nonzero resize resumes rendering; the stale generation is rebuilt
    // at present time.
    engine.notify_resized(320, 240);
    let end = run_frame(&mut engine, 0, PresentOutcome::Success);
    assert_eq!(end, FrameEnd::NeedRebuild);
    engine.rebuild(&surface_support(2, 320, 240), 320, 240).unwrap();
    let end2 = run_frame(&mut engine, 0, PresentOutcome::Success);
    assert_eq!(end2, FrameEnd::Continue);
}

#[test]
fn three_secondary_streams_are_allocated_once_and_reused() {
    let sup = surface_support(2, 640, 480);
    let (mut engine, _plan) =
        Engine::initialize(&sup, 640, 480, two_slots(), RecordStrategy::ReRecordPerFrame, false).unwrap();
    let images = engine.swapchain.config.image_count as usize;
    let objects = 3;
    let mut next_handle: u64 = 9000;
    let mut first_seen: Vec<Vec<u64>> = vec![Vec::new(); images];

    let mut image: usize = 0;
    for _frame in 0..10 {
        let _fence = engine.begin_frame().unwrap();
        engine.on_acquired(AcquireOutcome::Acquired { image }).unwrap();
        assert_eq!(engine.record_commands(), RecordAction::ResetAndRecord);
        for object in 0..objects {
            let handle = match engine.recorder.secondary_for(image, object) {
                Some(h) => {
                    // Reused: the handle cached the first time round.
                    assert_eq!(h, first_seen[image][object]);
                    h
                },
                None => {
                    let h = next_handle;
                    next_handle += 1;
                    let installed_at = engine.recorder.install_secondary(image, h);
                    assert_eq!(installed_at, object);
                    first_seen[image].push(h);
                    h
                },
            };
            let _ = handle;
        }
        engine.submit_frame();
        assert_eq!(engine.present_result(PresentOutcome::Success), FrameEnd::Continue);
        image = (image + 1) % images;
    }
    // Exactly three secondary streams per image, allocated once.
    assert_eq!(engine.recorder.allocation_count(), (objects * images) as u64);
    for i in 0..images {
        assert_eq!(engine.recorder.cached_count(i), objects);
    }
}

#[test]
fn reacquired_image_demands_a_wait_on_its_prior_marker() {
    let sup = surface_support(2, 640, 480);
    let (mut engine, _plan) =
        Engine::initialize(&sup, 640, 480, two_slots(), RecordStrategy::BakeOnce, false).unwrap();
    // Slot 0 draws into image 0.
    let fence0 = engine.begin_frame().unwrap();
    let act = engine.on_acquired(AcquireOutcome::Acquired { image: 0 }).unwrap();
    assert_eq!(act, AcquireAction::Proceed { wait: None });
    engine.record_commands();
    engine.submit_frame();
    engine.present_result(PresentOutcome::Success);
    // Slot 1 is handed the same image: it must first wait on slot 0's
    // marker, which may still be in flight.
    engine.begin_frame().unwrap();
    let act = engine.on_acquired(AcquireOutcome::Acquired { image: 0 }).unwrap();
    assert_eq!(act, AcquireAction::Proceed { wait: Some(fence0) });
}

#[test]
fn suboptimal_acquire_still_proceeds() {
    let sup = surface_support(2, 640, 480);
    let (mut engine, _plan) =
        Engine::initialize(&sup, 640, 480, two_slots(), RecordStrategy::BakeOnce, false).unwrap();
    engine.begin_frame().unwrap();
    let act = engine.on_acquired(AcquireOutcome::Suboptimal { image: 1 }).unwrap();
    assert_eq!(act, AcquireAction::Proceed { wait: None });
    engine.record_commands();
    engine.submit_frame();
    assert_eq!(engine.present_result(PresentOutcome::Success), FrameEnd::Continue);
}

#[test]
fn zero_height_resize_pauses_too() {
    let sup = surface_support(2, 640, 480);
    let (mut engine, _plan) =
        Engine::initialize(&sup, 640, 480, two_slots(), RecordStrategy::BakeOnce, false).unwrap();
    engine.notify_resized(640, 0);
    assert_eq!(engine.begin_frame(), None);
}

#[test]
fn initialization_reports_empty_support() {
    let mut sup = surface_support(2, 640, 480);
    sup.formats = Vec::new();
    assert!(Engine::initialize(&sup, 640, 480, two_slots(), RecordStrategy::BakeOnce, false).is_err());
}

#[test]
fn acquired_image_out_of_range_is_fatal() {
    let sup = surface_support(2, 640, 480);
    let (mut engine, _plan) =
        Engine::initialize(&sup, 640, 480, two_slots(), RecordStrategy::BakeOnce, false).unwrap();
    engine.begin_frame().unwrap();
    let r = engine.on_acquired(AcquireOutcome::Acquired { image: 99 });
    assert!(r.is_err());
}

#[test]
fn shutdown_tears_the_whole_session_down_in_reverse() {
    let sup = surface_support(2, 640, 480);
    let (mut engine, plan) =
        Engine::initialize(&sup, 640, 480, two_slots(), RecordStrategy::BakeOnce, false).unwrap();
    let (generation_td, session_td) = engine.shutdown();
    // The generation comes down first, in reverse creation order.
    assert_eq!(generation_td.len(), plan.len());
    for (i, kind) in generation_td.iter().enumerate() {
        assert_eq!(*kind, plan[plan.len() - 1 - i]);
    }
    // Then the session members: the shared layout and upload targets, the
    // two slots' sync objects, and last the device, surface and instance.
    assert_eq!(
        session_td,
        vec![
            SessionResource::SetLayout,
            SessionResource::IndexBuffer,
            SessionResource::VertexBuffer,
            SessionResource::TextureSampler,
            SessionResource::TextureView,
            SessionResource::TextureImage,
            SessionResource::GlobalCommandPool,
            SessionResource::InFlightMarker,
            SessionResource::RenderCompleteSignal,
            SessionResource::ImageAcquiredSignal,
            SessionResource::InFlightMarker,
            SessionResource::RenderCompleteSignal,
            SessionResource::ImageAcquiredSignal,
            SessionResource::DeviceObject,
            SessionResource::SurfaceObject,
            SessionResource::InstanceObject,
        ]
    );
}

#[test]
fn shutdown_includes_the_messenger_only_with_diagnostics() {
    let sup = surface_support(2, 640, 480);
    let (mut engine, _plan) =
        Engine::initialize(&sup, 640, 480, two_slots(), RecordStrategy::BakeOnce, true).unwrap();
    let (_generation_td, session_td) = engine.shutdown();
    assert_eq!(session_td.len(), 17);
    assert_eq!(session_td[session_td.len() - 2], SessionResource::DebugMessenger);
    assert_eq!(session_td[session_td.len() - 1], SessionResource::InstanceObject);
}
