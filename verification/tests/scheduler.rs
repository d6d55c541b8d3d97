//! Tests of the presentation scheduler's page-flip protocol.

use kms_pipeline::{PipelineError, PresentationEvent, Scheduler, SchedulerState};

#[test]
fn new_scheduler_is_idle() {
    let s = Scheduler::new();
    assert_eq!(s.state, SchedulerState::Idle);
}

#[test]
fn submit_from_idle_requests_flip() {
    let mut s = Scheduler::new();
    assert!(s.submit().is_ok());
    assert_eq!(s.state, SchedulerState::FlipRequested);
}

#[test]
fn submit_while_outstanding_is_rejected() {
    let mut s = Scheduler::new();
    assert!(s.submit().is_ok());
    // A second submission while one flip is outstanding must fail and
    // must not queue a second flip.
    assert_eq!(s.submit(), Err(PipelineError::FlipRejected));
    assert_eq!(s.state, SchedulerState::FlipRequested);
}

#[test]
fn submit_while_confirmed_is_rejected() {
    let mut s = Scheduler::new();
    assert!(s.submit().is_ok());
    s.on_event(PresentationEvent::PageFlipComplete);
    assert_eq!(s.state, SchedulerState::FlipConfirmed);
    assert_eq!(s.submit(), Err(PipelineError::FlipRejected));
    assert_eq!(s.state, SchedulerState::FlipConfirmed);
}

#[test]
fn wait_resolves_on_third_event() {
    // The exact chatter sequence: the first two events change nothing
    // and raise no error; the third resolves the wait.
    let mut s = Scheduler::new();
    assert!(s.submit().is_ok());

    assert!(!s.on_event(PresentationEvent::VerticalBlank));
    assert_eq!(s.state, SchedulerState::FlipRequested);

    assert!(!s.on_event(PresentationEvent::Unrecognized));
    assert_eq!(s.state, SchedulerState::FlipRequested);

    assert!(s.on_event(PresentationEvent::PageFlipComplete));
    assert_eq!(s.state, SchedulerState::FlipConfirmed);
}

#[test]
fn batch_absorb_resolves_on_completion() {
    let mut s = Scheduler::new();
    assert!(s.submit().is_ok());
    let batch = vec![
        PresentationEvent::VerticalBlank,
        PresentationEvent::Unrecognized,
        PresentationEvent::PageFlipComplete,
    ];
    assert!(s.absorb_events(&batch));
    assert_eq!(s.state, SchedulerState::FlipConfirmed);
}

#[test]
fn batch_without_completion_keeps_waiting() {
    let mut s = Scheduler::new();
    assert!(s.submit().is_ok());
    let batch = vec![
        PresentationEvent::VerticalBlank,
        PresentationEvent::VerticalBlank,
        PresentationEvent::Unrecognized,
    ];
    assert!(!s.absorb_events(&batch));
    assert_eq!(s.state, SchedulerState::FlipRequested);
}

#[test]
fn completion_without_outstanding_flip_changes_nothing() {
    let mut s = Scheduler::new();
    assert!(!s.on_event(PresentationEvent::PageFlipComplete));
    assert_eq!(s.state, SchedulerState::Idle);
}

#[test]
fn acknowledge_returns_to_idle() {
    let mut s = Scheduler::new();
    assert!(s.submit().is_ok());
    s.on_event(PresentationEvent::PageFlipComplete);
    s.acknowledge();
    assert_eq!(s.state, SchedulerState::Idle);
    // The scheduler accepts the next submission again.
    assert!(s.submit().is_ok());
}
