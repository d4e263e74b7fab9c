use gfx_frame::frame::{
    frame_commands, AcquireOutcome, FrameCommand, FrameScheduler, PresentOutcome, VoxelEdit,
};
use gfx_frame::swapchain::{recreate_plan, teardown_plan, RecreateStep, TeardownStep};

#[test]
fn fresh_scheduler_is_idle() {
    let s = FrameScheduler::new();
    assert!(!s.slot0.pending);
    assert!(!s.slot1.pending);
    assert!(!s.parity);
    assert!(!s.needs_recreate());
    assert_eq!(s.submits, 0);
    assert_eq!(s.retires, 0);
}

#[test]
fn out_of_date_acquire_abandons_the_frame() {
    let mut s = FrameScheduler::new();
    let r = s.begin_frame(AcquireOutcome::OutOfDate);
    assert_eq!(r, None);
    assert!(s.needs_recreate());
    assert_eq!(s.submits, 0);
    assert!(!s.parity);
}

#[test]
fn suboptimal_acquire_still_draws_but_schedules_recreation() {
    let mut s = FrameScheduler::new();
    let r = s.begin_frame(AcquireOutcome::Image { index: 1, suboptimal: true });
    assert_eq!(r, Some(1));
    assert!(s.needs_recreate());
    assert!(s.parity);
}

#[test]
fn parity_toggles_each_frame() {
    let mut s = FrameScheduler::new();
    s.begin_frame(AcquireOutcome::Image { index: 0, suboptimal: false });
    assert!(s.parity);
    s.submit_frame(1);
    s.begin_frame(AcquireOutcome::Image { index: 1, suboptimal: false });
    assert!(!s.parity);
}

#[test]
fn at_most_two_frames_in_flight() {
    let mut s = FrameScheduler::new();
    for i in 0..10u32 {
        assert!(!s.needs_recreate());
        let idx = s.begin_frame(AcquireOutcome::Image { index: i % 3, suboptimal: false });
        assert_eq!(idx, Some(i % 3));
        s.submit_frame(1);
        assert!(s.submits - s.retires <= 2);
        s.finish_present(PresentOutcome::Presented { suboptimal: false });
    }
    // At steady state every frame's wait retires one earlier submission.
    assert_eq!(s.submits, 10);
    assert_eq!(s.retires, 8);
}

#[test]
fn secondary_pool_only_grows() {
    let mut s = FrameScheduler::new();
    s.begin_frame(AcquireOutcome::Image { index: 0, suboptimal: false });
    s.submit_frame(3);
    assert_eq!(s.slot0.secondaries, 3);
    s.begin_frame(AcquireOutcome::Image { index: 1, suboptimal: false });
    s.submit_frame(1);
    assert_eq!(s.slot1.secondaries, 1);
    s.begin_frame(AcquireOutcome::Image { index: 0, suboptimal: false });
    s.submit_frame(1);
    assert_eq!(s.slot0.secondaries, 3);
}

#[test]
fn stale_present_schedules_recreation() {
    let mut s = FrameScheduler::new();
    s.begin_frame(AcquireOutcome::Image { index: 0, suboptimal: false });
    s.submit_frame(1);
    s.finish_present(PresentOutcome::OutOfDate);
    assert!(s.needs_recreate());
    s.complete_recreate();
    assert!(!s.needs_recreate());
    // The recreate's wait retired the in-flight slot.
    assert_eq!(s.retires, 1);
    assert_eq!(s.submits, 1);
}

#[test]
fn suboptimal_present_schedules_recreation() {
    let mut s = FrameScheduler::new();
    s.finish_present(PresentOutcome::Presented { suboptimal: true });
    assert!(s.needs_recreate());
}

#[test]
fn frame_commands_without_edits() {
    let p = frame_commands(2, &Vec::new());
    assert_eq!(
        p,
        vec![
            FrameCommand::BeginRenderPass,
            FrameCommand::ExecuteSecondaries(2),
            FrameCommand::EndRenderPass,
        ]
    );
}

#[test]
fn frame_commands_bracket_each_edit() {
    let e1 = VoxelEdit { x: 0, y: 0, z: 5 };
    let e2 = VoxelEdit { x: 1, y: 2, z: 3 };
    let p = frame_commands(1, &vec![e1, e2]);
    let mut want = vec![FrameCommand::UpdateStencilDescriptor];
    for e in [e1, e2] {
        want.push(FrameCommand::TransitionToGeneral);
        want.push(FrameCommand::PushStencilConstants(e));
        want.push(FrameCommand::BindStencilPipeline);
        want.push(FrameCommand::BindStencilDescriptor);
        want.push(FrameCommand::DispatchStencil);
        want.push(FrameCommand::TransitionToReadOnly);
    }
    want.push(FrameCommand::BeginRenderPass);
    want.push(FrameCommand::ExecuteSecondaries(1));
    want.push(FrameCommand::EndRenderPass);
    assert_eq!(p, want);
}

#[test]
fn recreation_waits_before_destroying() {
    for parity in [false, true] {
        for changed in [false, true] {
            let p = recreate_plan(parity, changed);
            let expected_slot = if parity { 0 } else { 1 };
            assert_eq!(p[0], RecreateStep::WaitSlotFence(expected_slot));
            let wait_count =
                p.iter().filter(|s| matches!(s, RecreateStep::WaitSlotFence(_))).count();
            assert_eq!(wait_count, 1);
            let destroys = [
                RecreateStep::DestroyFramebuffers,
                RecreateStep::DestroyPipeline,
                RecreateStep::DestroyImageViews,
                RecreateStep::DestroyOldSwapchain,
            ];
            for d in destroys {
                let at = p.iter().position(|s| *s == d).unwrap();
                assert!(at > 0);
            }
            let rebuilds = p.iter().any(|s| *s == RecreateStep::RebuildDescriptorPool);
            assert_eq!(rebuilds, changed);
            let create = p.iter().position(|s| *s == RecreateStep::CreateSwapchain).unwrap();
            let destroy_old =
                p.iter().position(|s| *s == RecreateStep::DestroyOldSwapchain).unwrap();
            assert!(create < destroy_old);
        }
    }
}

#[test]
fn teardown_waits_on_the_other_slot_first() {
    let p = teardown_plan(true);
    assert_eq!(p[0], TeardownStep::WaitSlotFence(0));
    let q = teardown_plan(false);
    assert_eq!(q[0], TeardownStep::WaitSlotFence(1));
    assert_eq!(q.last(), Some(&TeardownStep::DestroySurface));
}
