//! Swapchain generations, the resource ledger, and the frame scheduler's
//! wait protocol, driven directly.

use framepace::frame::{FrameEnd, FrameScheduler, FrameSlot, Phase, PresentOutcome};
use framepace::recorder::{
    primary_stream, secondary_stream, CommandRecorder, RecordAction, RecordStrategy, StreamOp,
};
use framepace::surface::{PresentMode, SurfaceCapabilities, SurfaceFormat, SwapchainSupport};
use framepace::swapchain::{ResourceKind, SwapchainManager, SwapchainState};

fn support(min_images: u32) -> SwapchainSupport {
    SwapchainSupport {
        capabilities: SurfaceCapabilities {
            min_image_count: min_images,
            max_image_count: 8,
            current_width: 640,
            current_height: 480,
            min_width: 1,
            min_height: 1,
            max_width: 4096,
            max_height: 4096,
        },
        formats: vec![SurfaceFormat { format: 50, color_space: 0 }],
        present_modes: vec![PresentMode::Fifo],
    }
}

fn slots2() -> Vec<FrameSlot> {
    vec![
        FrameSlot { image_acquired: 100, render_complete: 200, in_flight: 1 },
        FrameSlot { image_acquired: 101, render_complete: 201, in_flight: 2 },
    ]
}

#[test]
fn generation_resource_set_has_the_planned_shape() {
    let mut m = SwapchainManager::absent();
    let plan = m.create(&support(2), 640, 480).unwrap();
    // K = 3: six set-wide members and six per-image members per image.
    assert_eq!(plan.len(), 6 + 6 * 3);
    assert_eq!(plan[0], ResourceKind::SwapchainObject);
    assert_eq!(plan[1], ResourceKind::ImageView);
    assert_eq!(plan[4], ResourceKind::RenderTargetDesc);
    assert_eq!(plan[5], ResourceKind::Pipeline);
    assert_eq!(plan[plan.len() - 1], ResourceKind::CommandStream);
    assert_eq!(m.state, SwapchainState::Ready);
    assert_eq!(m.generation, 1);
    assert_eq!(m.outstanding(), plan.len());
}

#[test]
fn teardown_is_reverse_of_creation() {
    let mut m = SwapchainManager::absent();
    let plan = m.create(&support(2), 640, 480).unwrap();
    let (teardown, build) = m.rebuild(&support(3), 800, 600).unwrap();
    assert_eq!(teardown.len(), plan.len());
    for (i, kind) in teardown.iter().enumerate() {
        assert_eq!(*kind, plan[plan.len() - 1 - i]);
    }
    // The new generation covers K = 4 images.
    assert_eq!(build.len(), 6 + 6 * 4);
    assert_eq!(m.generation, 2);
    assert_eq!(m.state, SwapchainState::Ready);
}

#[test]
fn destruction_balances_every_construction() {
    let mut m = SwapchainManager::absent();
    let plan = m.create(&support(2), 640, 480).unwrap();
    let (td1, bd1) = m.rebuild(&support(2), 320, 200).unwrap();
    assert_eq!(td1.len(), plan.len());
    let td2 = m.destroy();
    assert_eq!(td2.len(), bd1.len());
    assert_eq!(m.outstanding(), 0);
    assert_eq!(m.state, SwapchainState::Destroyed);
}

#[test]
fn failed_plan_leaves_the_generation_untouched() {
    let mut m = SwapchainManager::absent();
    m.create(&support(2), 640, 480).unwrap();
    let mut empty = support(2);
    empty.formats = Vec::new();
    assert!(m.rebuild(&empty, 1, 1).is_err());
    assert_eq!(m.generation, 1);
    assert_eq!(m.state, SwapchainState::Ready);
    assert_eq!(m.outstanding(), 6 + 6 * 3);
}

#[test]
fn stale_generation_can_be_rebuilt() {
    let mut m = SwapchainManager::absent();
    m.create(&support(2), 640, 480).unwrap();
    m.mark_stale();
    assert_eq!(m.state, SwapchainState::Stale);
    m.rebuild(&support(2), 640, 480).unwrap();
    assert_eq!(m.state, SwapchainState::Ready);
    assert_eq!(m.generation, 2);
}

#[test]
fn slot_wait_comes_first_every_frame() {
    let mut s = FrameScheduler::new(slots2(), 3);
    let f = s.begin_frame();
    assert_eq!(f, 1);
    let prior = s.claim_image(0);
    assert_eq!(prior, None);
    let plan = s.mark_submitted();
    assert_eq!(plan.fence, 1);
    assert_eq!(plan.wait_image_acquired, 100);
    assert_eq!(plan.signal_render_complete, 200);
    assert_eq!(plan.image, 0);
    assert_eq!(s.end_frame(PresentOutcome::Success, false), FrameEnd::Continue);
    assert_eq!(s.frame, 1);
    let f2 = s.begin_frame();
    assert_eq!(f2, 2);
}

#[test]
fn reclaiming_an_image_returns_the_prior_marker() {
    // K = 1 with N = 2: the second slot hits the first slot's marker.
    let mut s = FrameScheduler::new(slots2(), 1);
    s.begin_frame();
    assert_eq!(s.claim_image(0), None);
    s.mark_submitted();
    s.end_frame(PresentOutcome::Success, false);
    s.begin_frame();
    let prior = s.claim_image(0);
    assert_eq!(prior, Some(1));
    assert_eq!(s.images_in_flight[0], Some(2));
}

#[test]
fn rebuild_resets_the_image_table() {
    let mut s = FrameScheduler::new(slots2(), 3);
    s.begin_frame();
    s.claim_image(2);
    s.mark_submitted();
    assert_eq!(s.end_frame(PresentOutcome::OutOfDate, false), FrameEnd::NeedRebuild);
    assert_eq!(s.phase, Phase::NeedsRebuild);
    s.on_rebuilt(5);
    assert_eq!(s.images_in_flight.len(), 5);
    assert!(s.images_in_flight.iter().all(|e| e.is_none()));
    assert_eq!(s.phase, Phase::Idle);
}

#[test]
fn acquire_out_of_date_does_not_advance_the_cycle() {
    let mut s = FrameScheduler::new(slots2(), 3);
    s.begin_frame();
    s.abort_acquire();
    assert_eq!(s.phase, Phase::NeedsRebuild);
    assert_eq!(s.frame, 0);
    s.on_rebuilt(3);
    let f = s.begin_frame();
    assert_eq!(f, 1, "the aborted slot's fence is waited again");
}

#[test]
fn fatal_present_does_not_advance_the_cycle() {
    let mut s = FrameScheduler::new(slots2(), 2);
    s.begin_frame();
    s.claim_image(0);
    s.mark_submitted();
    assert_eq!(s.end_frame(PresentOutcome::Failure, false), FrameEnd::Fatal);
    assert_eq!(s.frame, 0);
}

#[test]
fn resize_flag_forces_a_rebuild_at_present() {
    let mut s = FrameScheduler::new(slots2(), 2);
    s.begin_frame();
    s.claim_image(0);
    s.mark_submitted();
    assert_eq!(s.end_frame(PresentOutcome::Success, true), FrameEnd::NeedRebuild);
}

#[test]
fn suboptimal_present_forces_a_rebuild() {
    let mut s = FrameScheduler::new(slots2(), 2);
    s.begin_frame();
    s.claim_image(1);
    s.mark_submitted();
    assert_eq!(s.end_frame(PresentOutcome::Suboptimal, false), FrameEnd::NeedRebuild);
}

#[test]
fn bake_once_records_each_image_once() {
    let mut r = CommandRecorder::new(RecordStrategy::BakeOnce, 2);
    assert_eq!(r.prepare(0), RecordAction::Record);
    assert_eq!(r.prepare(0), RecordAction::Reuse);
    assert_eq!(r.prepare(1), RecordAction::Record);
    assert_eq!(r.prepare(1), RecordAction::Reuse);
}

#[test]
fn re_record_resets_every_use() {
    let mut r = CommandRecorder::new(RecordStrategy::ReRecordPerFrame, 2);
    assert_eq!(r.prepare(0), RecordAction::ResetAndRecord);
    assert_eq!(r.prepare(0), RecordAction::ResetAndRecord);
}

#[test]
fn secondary_arena_grows_lazily_and_caches() {
    let mut r = CommandRecorder::new(RecordStrategy::ReRecordPerFrame, 1);
    assert_eq!(r.secondary_for(0, 0), None);
    let object = r.install_secondary(0, 7000);
    assert_eq!(object, 0);
    assert_eq!(r.secondary_for(0, 0), Some(7000));
    assert_eq!(r.secondary_for(0, 1), None);
    assert_eq!(r.install_secondary(0, 7001), 1);
    assert_eq!(r.allocation_count(), 2);
    assert_eq!(r.cached_count(0), 2);
}

#[test]
fn generation_reset_discards_the_cache_but_keeps_the_count() {
    let mut r = CommandRecorder::new(RecordStrategy::BakeOnce, 1);
    r.prepare(0);
    r.install_secondary(0, 7000);
    r.reset_images(2);
    assert_eq!(r.secondary_for(0, 0), None);
    assert_eq!(r.secondary_for(1, 0), None);
    assert_eq!(r.allocation_count(), 1);
    assert_eq!(r.prepare(0), RecordAction::Record);
}

#[test]
fn primary_stream_runs_each_object_once_in_order() {
    let plan = primary_stream(3);
    assert_eq!(
        plan,
        vec![
            StreamOp::Begin,
            StreamOp::BeginPass,
            StreamOp::ExecuteSecondary { object: 0 },
            StreamOp::ExecuteSecondary { object: 1 },
            StreamOp::ExecuteSecondary { object: 2 },
            StreamOp::EndPass,
            StreamOp::End,
        ]
    );
    assert_eq!(
        primary_stream(0),
        vec![StreamOp::Begin, StreamOp::BeginPass, StreamOp::EndPass, StreamOp::End]
    );
}

#[test]
fn secondary_stream_binds_pushes_and_draws() {
    assert_eq!(
        secondary_stream(1, 12),
        vec![
            StreamOp::Begin,
            StreamOp::BindPipeline,
            StreamOp::BindVertexBuffer,
            StreamOp::BindIndexBuffer,
            StreamOp::BindDescriptors,
            StreamOp::PushTransform { object: 1 },
            StreamOp::PushOpacity { object: 1 },
            StreamOp::DrawIndexed { indices: 12 },
            StreamOp::End,
        ]
    );
}

#[test]
fn queue_creation_covers_each_family_once() {
    let same = framepace::device::QueueFamilyIndices { graphics: 0, present: 0 };
    assert_eq!(framepace::device::unique_queue_indices(&same), vec![0]);
    let split = framepace::device::QueueFamilyIndices { graphics: 0, present: 2 };
    assert_eq!(framepace::device::unique_queue_indices(&split), vec![0, 2]);
}
