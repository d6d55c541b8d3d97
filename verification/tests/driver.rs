//! Tests of the frame loop driver: a full presentation cycle against a
//! simulated display controller.

use kms_pipeline::{FramePipeline, PipelineError, PresentationEvent, SchedulerState};

#[test]
fn pipeline_starts_at_frame_zero() {
    let p = FramePipeline::new();
    assert_eq!(p.frame, 0);
    assert_eq!(p.scheduler.state, SchedulerState::Idle);
    assert_eq!(p.buffers.front, None);
    assert_eq!(p.buffers.staged, None);
}

#[test]
fn frame_angles_at_frame_zero() {
    let p = FramePipeline::new();
    let a = p.begin_frame();
    assert_eq!(a.x_centideg, 4500);
    assert_eq!(a.y_centideg, 4500);
    assert_eq!(a.z_centideg, 1000);
}

#[test]
fn frame_angles_follow_the_schedule() {
    let a = kms_pipeline::frame_angles(100);
    assert_eq!(a.x_centideg, 7000);
    assert_eq!(a.y_centideg, -500);
    assert_eq!(a.z_centideg, 2500);
}

#[test]
fn initial_modeset_installs_the_first_target() {
    let mut p = FramePipeline::new();
    let h = p.acquire_target(true).unwrap();
    assert_eq!(p.install_first_target(), None);
    assert_eq!(p.buffers.front, Some(h));
    assert_eq!(p.buffers.staged, None);
    assert_eq!(p.frame, 0);
}

#[test]
fn unavailable_swap_chain_is_fatal() {
    let mut p = FramePipeline::new();
    assert_eq!(p.acquire_target(false), Err(PipelineError::BufferUnavailable));
}

#[test]
fn second_submission_within_a_cycle_is_rejected() {
    let mut p = FramePipeline::new();
    let h = p.acquire_target(true).unwrap();
    let _fb = p.publish_target(h, Some(7)).unwrap();
    assert!(p.submit_flip().is_ok());
    assert_eq!(p.submit_flip(), Err(PipelineError::FlipRejected));
}

#[test]
fn one_cycle_advances_the_frame_and_retires_the_front() {
    let mut p = FramePipeline::new();

    // Initial modeset.
    let first = p.acquire_target(true).unwrap();
    p.publish_target(first, Some(100)).unwrap();
    p.install_first_target();

    // One presentation cycle.
    let next = p.acquire_target(true).unwrap();
    p.publish_target(next, Some(101)).unwrap();
    assert!(p.submit_flip().is_ok());

    let batch = vec![PresentationEvent::VerticalBlank, PresentationEvent::PageFlipComplete];
    assert!(p.absorb_events(&batch));

    let retired = p.complete_frame();
    assert_eq!(retired, Some(first));
    assert_eq!(p.buffers.front, Some(next));
    assert_eq!(p.buffers.staged, None);
    assert_eq!(p.frame, 1);
    assert_eq!(p.scheduler.state, SchedulerState::Idle);
}

#[test]
fn simulated_frame_loop_keeps_the_books() {
    // Run the whole steady-state loop against a simulated controller
    // that answers every flip with chatter followed by a completion.
    let mut p = FramePipeline::new();
    let mut alive: Vec<u64> = Vec::new();

    let first = p.acquire_target(true).unwrap();
    alive.push(first);
    p.publish_target(first, Some(first + 1)).unwrap();
    p.install_first_target();

    for n in 0..32u64 {
        assert_eq!(p.frame, n);

        let h = p.acquire_target(true).unwrap();
        alive.push(h);
        assert!(alive.len() <= 2);
        p.publish_target(h, Some(h + 1)).unwrap();
        p.submit_flip().unwrap();

        let mut confirmed = p.absorb_events(&vec![PresentationEvent::VerticalBlank]);
        assert!(!confirmed);
        confirmed = p.absorb_events(&vec![
            PresentationEvent::Unrecognized,
            PresentationEvent::PageFlipComplete,
        ]);
        assert!(confirmed);

        let retired = p.complete_frame().unwrap();
        let at = alive.iter().position(|&x| x == retired).unwrap();
        alive.remove(at);
        assert_eq!(alive.len(), 1);
        assert_eq!(p.buffers.front, Some(alive[0]));
    }

    assert_eq!(p.frame, 32);
}
