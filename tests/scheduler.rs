use renderer::scheduler::{
    AcquireOutcome, Action, Event, FrameError, FrameScheduler, Phase, PresentOutcome,
    RESULT_OUT_OF_DATE, RESULT_SUBOPTIMAL, RESULT_SUCCESS,
};
use renderer::swapchain::PresentableImage;
use renderer::sync::{FenceState, FrameSlot, MAX_FRAMES_IN_FLIGHT};

fn slot(k: u64) -> FrameSlot {
    FrameSlot { image_available: 100 + k, render_finished: 200 + k, in_flight: 300 + k }
}

fn image(k: u64) -> PresentableImage {
    PresentableImage {
        image: 1000 + k,
        view: 2000 + k,
        framebuffer: 3000 + k,
        command_buffer: 4000 + k,
        uniform_buffer: 5000 + k,
        uniform_memory: 6000 + k,
        descriptor_set: 7000 + k,
    }
}

fn scheduler(images: u64) -> FrameScheduler {
    let slots = (0..MAX_FRAMES_IN_FLIGHT as u64).map(slot).collect();
    FrameScheduler::new(slots, (0..images).map(image).collect())
}

/// Runs one whole frame that acquires `index` and presents with `outcome`,
/// returning every action taken.
fn run_frame(s: &mut FrameScheduler, index: u32, outcome: PresentOutcome) -> Vec<Action> {
    let mut actions = Vec::new();
    let mut action = s.step(Event::Redraw).unwrap();
    loop {
        actions.push(action);
        let event = match action {
            Action::AcquireImage { .. } => Event::Acquire(AcquireOutcome::Image { index }),
            Action::Present { .. } => Event::Present(outcome),
            Action::RecreateSwapchain => {
                let n = s.images.len() as u64;
                action = s.finish_recreation((0..n).map(image).collect()).unwrap();
                continue;
            }
            Action::FrameDone => break,
            _ => Event::Done,
        };
        action = s.step(event).unwrap();
    }
    actions
}

#[test]
fn first_frame_runs_the_full_protocol_in_order() {
    let mut s = scheduler(2);
    let actions = run_frame(&mut s, 1, PresentOutcome::Optimal);
    assert_eq!(
        actions,
        vec![
            Action::WaitForFence { fence: 300 },
            Action::AcquireImage { signal: 100 },
            Action::UpdateUniforms { image: 1 },
            Action::ResetFence { fence: 300 },
            Action::Submit { command_buffer: 4001, wait: 100, signal: 200, fence: 300 },
            Action::Present { wait: 200, image: 1 },
            Action::FrameDone,
        ]
    );
    assert_eq!(s.frame, 1);
    assert_eq!(s.phase, Phase::Idle);
    assert_eq!(s.last_use, vec![None, Some(0)]);
    assert_eq!(s.fences, vec![FenceState::Pending, FenceState::Signaled, FenceState::Signaled]);
}

#[test]
fn slot_fence_is_waited_before_each_resubmission() {
    let mut s = scheduler(3);
    for n in 0..7u32 {
        let k = (n as usize % MAX_FRAMES_IN_FLIGHT) as u64;
        assert_eq!(s.frame, k as usize);
        let actions = run_frame(&mut s, n % 3, PresentOutcome::Optimal);
        let wait = actions.iter().position(|a| *a == Action::WaitForFence { fence: 300 + k }).unwrap();
        let reset = actions.iter().position(|a| *a == Action::ResetFence { fence: 300 + k }).unwrap();
        let submit = actions
            .iter()
            .position(|a| matches!(a, Action::Submit { fence, .. } if *fence == 300 + k))
            .unwrap();
        assert!(wait < reset && reset < submit);
    }
}

#[test]
fn more_slots_than_images_waits_on_the_image_fence_at_frame_two() {
    let mut s = scheduler(2);
    let first = run_frame(&mut s, 0, PresentOutcome::Optimal);
    let second = run_frame(&mut s, 1, PresentOutcome::Optimal);
    assert_eq!(first.iter().filter(|a| matches!(a, Action::WaitForFence { .. })).count(), 1);
    assert_eq!(second.iter().filter(|a| matches!(a, Action::WaitForFence { .. })).count(), 1);
    assert_eq!(s.frame, 2);
    let third = run_frame(&mut s, 0, PresentOutcome::Optimal);
    assert_eq!(
        &third[..4],
        &[
            Action::WaitForFence { fence: 302 },
            Action::AcquireImage { signal: 102 },
            Action::WaitForFence { fence: 300 },
            Action::UpdateUniforms { image: 0 },
        ]
    );
    assert_eq!(s.last_use, vec![Some(2), Some(1)]);
    assert_eq!(s.frame, 0);
}

#[test]
fn image_fence_entry_is_replaced_by_the_current_slot() {
    let mut s = scheduler(1);
    run_frame(&mut s, 0, PresentOutcome::Optimal);
    assert_eq!(s.last_use, vec![Some(0)]);
    let actions = run_frame(&mut s, 0, PresentOutcome::Optimal);
    assert_eq!(actions[2], Action::WaitForFence { fence: 300 });
    assert_eq!(s.last_use, vec![Some(1)]);
}

#[test]
fn out_of_date_acquire_rebuilds_without_advancing() {
    let mut s = scheduler(2);
    run_frame(&mut s, 0, PresentOutcome::Optimal);
    assert_eq!(s.frame, 1);
    assert_eq!(s.step(Event::Redraw), Ok(Action::WaitForFence { fence: 301 }));
    assert_eq!(s.step(Event::Done), Ok(Action::AcquireImage { signal: 101 }));
    assert_eq!(
        s.step(Event::Acquire(AcquireOutcome::OutOfDate)),
        Ok(Action::RecreateSwapchain)
    );
    assert_eq!(s.frame, 1);
    assert_eq!(s.phase, Phase::Recreating { advance: false });
    // Nothing is acquired until the rebuild is reported complete.
    assert_eq!(s.step(Event::Redraw), Err(FrameError::UnexpectedEvent));
    assert_eq!(s.step(Event::Done), Err(FrameError::UnexpectedEvent));
    assert_eq!(s.finish_recreation(vec![image(7), image(8), image(9)]), Ok(Action::FrameDone));
    assert_eq!(s.frame, 1);
    assert_eq!(s.phase, Phase::Idle);
    assert_eq!(s.images.len(), 3);
    assert_eq!(s.last_use, vec![None, None, None]);
    assert_eq!(s.fences, vec![FenceState::Signaled; 3]);
    assert_eq!(s.step(Event::Redraw), Ok(Action::WaitForFence { fence: 301 }));
}

#[test]
fn resize_during_submission_is_handled_after_present() {
    let mut s = scheduler(2);
    s.step(Event::Redraw).unwrap();
    s.step(Event::Done).unwrap();
    s.step(Event::Acquire(AcquireOutcome::Image { index: 0 })).unwrap();
    s.step(Event::Done).unwrap();
    let submit = s.step(Event::Done).unwrap();
    assert!(matches!(submit, Action::Submit { .. }));
    assert_eq!(s.phase, Phase::Submitted { image: 0 });
    s.request_resize();
    assert!(s.resized);
    assert_eq!(s.phase, Phase::Submitted { image: 0 });
    assert_eq!(s.step(Event::Done), Ok(Action::Present { wait: 200, image: 0 }));
    assert_eq!(s.frame, 0);
    assert_eq!(s.step(Event::Present(PresentOutcome::Optimal)), Ok(Action::RecreateSwapchain));
    assert!(!s.resized);
    assert_eq!(s.phase, Phase::Recreating { advance: true });
    assert_eq!(s.finish_recreation(vec![image(0), image(1)]), Ok(Action::FrameDone));
    assert_eq!(s.frame, 1);
}

#[test]
fn suboptimal_or_out_of_date_present_rebuilds_and_advances() {
    for outcome in [PresentOutcome::Suboptimal, PresentOutcome::OutOfDate] {
        let mut s = scheduler(2);
        let actions = run_frame(&mut s, 0, outcome);
        assert!(actions.contains(&Action::RecreateSwapchain));
        assert_eq!(s.frame, 1);
        assert_eq!(s.last_use, vec![None, None]);
    }
}

#[test]
fn fatal_results_are_reported_and_leave_the_state() {
    let mut s = scheduler(2);
    s.step(Event::Redraw).unwrap();
    s.step(Event::Done).unwrap();
    assert_eq!(
        s.step(Event::Acquire(AcquireOutcome::Failed { code: -4 })),
        Err(FrameError::AcquireFailed { code: -4 })
    );
    assert_eq!(
        s.step(Event::Acquire(AcquireOutcome::Image { index: 2 })),
        Err(FrameError::ImageIndexOutOfRange { index: 2 })
    );
    assert_eq!(s.phase, Phase::AcquireRequested);
    s.step(Event::Acquire(AcquireOutcome::Image { index: 1 })).unwrap();
    s.step(Event::Done).unwrap();
    s.step(Event::Done).unwrap();
    s.step(Event::Done).unwrap();
    s.request_resize();
    assert_eq!(
        s.step(Event::Present(PresentOutcome::Failed { code: -3 })),
        Err(FrameError::PresentFailed { code: -3 })
    );
    assert_eq!(s.frame, 0);
    assert_eq!(s.finish_recreation(vec![]), Err(FrameError::UnexpectedEvent));
}

#[test]
fn new_scheduler_starts_with_signaled_fences() {
    let s = scheduler(4);
    assert_eq!(s.frame, 0);
    assert_eq!(s.phase, Phase::Idle);
    assert!(!s.resized);
    assert_eq!(s.fences, vec![FenceState::Signaled; MAX_FRAMES_IN_FLIGHT]);
    assert_eq!(s.last_use, vec![None; 4]);
}

#[test]
fn result_codes_are_classified() {
    assert_eq!(PresentOutcome::from_code(RESULT_SUCCESS), PresentOutcome::Optimal);
    assert_eq!(PresentOutcome::from_code(RESULT_SUBOPTIMAL), PresentOutcome::Suboptimal);
    assert_eq!(PresentOutcome::from_code(RESULT_OUT_OF_DATE), PresentOutcome::OutOfDate);
    assert_eq!(PresentOutcome::from_code(-4), PresentOutcome::Failed { code: -4 });
    assert_eq!(AcquireOutcome::from_error(RESULT_OUT_OF_DATE), AcquireOutcome::OutOfDate);
    assert_eq!(AcquireOutcome::from_error(-2), AcquireOutcome::Failed { code: -2 });
}
