//! The presentation scheduler: a three-state machine that owns the
//! page-flip protocol.
//!
//! `Idle -> FlipRequested` on a legal submission, `FlipRequested ->
//! FlipConfirmed` on the matching completion event, `FlipConfirmed ->
//! Idle` when the confirmation is acknowledged. At most one flip is
//! outstanding at a time: a submission in any state but `Idle` fails
//! with `FlipRejected` and never queues a second flip.
//!
//! The scheduler itself performs no device call: the caller issues the
//! flip ioctl and reads the event channel, and hands every outcome back
//! as plain values. Event retrieval is expected to block without a
//! timeout; a completion event that never arrives stalls the caller
//! permanently, by design.

use vstd::prelude::*;

use crate::errors::PipelineError;
use crate::events::PresentationEvent;

verus! {

/// The phase of the page-flip protocol.
#[derive(Clone, Copy, Debug, PartialEq, Eq, Structural)]
pub enum SchedulerState {
    /// No flip is outstanding; a new submission is legal.
    Idle,
    /// A flip was submitted and its completion event is awaited.
    FlipRequested,
    /// The outstanding flip was confirmed by the display controller.
    FlipConfirmed,
}

/// What one event from the display controller does to the scheduler:
/// a completion event resolves an outstanding request, every other
/// event changes nothing.
pub open spec fn step_state(s: SchedulerState, e: PresentationEvent) -> SchedulerState {
    if s == SchedulerState::FlipRequested && e == PresentationEvent::PageFlipComplete {
        SchedulerState::FlipConfirmed
    } else {
        s
    }
}

/// The scheduler state after absorbing a whole sequence of events,
/// oldest first.
pub open spec fn run_events(s: SchedulerState, events: Seq<PresentationEvent>) -> SchedulerState
    decreases events.len(),
{
    if events.len() == 0 {
        s
    } else {
        step_state(run_events(s, events.drop_last()), events.last())
    }
}

/// The presentation scheduler.
pub struct Scheduler {
    /// The current phase of the page-flip protocol.
    pub state: SchedulerState,
}

impl Scheduler {
    /// A scheduler with no flip outstanding.
    pub fn new() -> (s: Scheduler)
        ensures
            s.state == SchedulerState::Idle,
    {
        Scheduler { state: SchedulerState::Idle }
    }

    /// Record the submission of a page-flip request.
    ///
    /// Succeeds exactly when no flip is outstanding; a submission while
    /// one is outstanding fails with `FlipRejected` and leaves the
    /// scheduler unchanged — a second flip is never silently queued.
    pub fn submit(&mut self) -> (r: Result<(), PipelineError>)
        ensures
            old(self).state == SchedulerState::Idle ==> {
                &&& r is Ok
                &&& final(self).state == SchedulerState::FlipRequested
            },
            old(self).state != SchedulerState::Idle ==> {
                &&& r == Err::<(), PipelineError>(PipelineError::FlipRejected)
                &&& final(self).state == old(self).state
            },
    {
        if self.state == SchedulerState::Idle {
            self.state = SchedulerState::FlipRequested;
            Ok(())
        } else {
            Err(PipelineError::FlipRejected)
        }
    }

    /// Absorb one event from the display controller.
    ///
    /// Never fails: intervening `VerticalBlank` and `Unrecognized`
    /// events are discarded without a state change. Returns whether
    /// this very event confirmed the outstanding flip.
    pub fn on_event(&mut self, e: PresentationEvent) -> (resolved: bool)
        ensures
            final(self).state == step_state(old(self).state, e),
            resolved == (old(self).state == SchedulerState::FlipRequested
                && e == PresentationEvent::PageFlipComplete),
    {
        if self.state == SchedulerState::FlipRequested && e == PresentationEvent::PageFlipComplete {
            self.state = SchedulerState::FlipConfirmed;
            true
        } else {
            false
        }
    }

    /// Absorb a whole batch of events, oldest first, as one read of the
    /// event channel delivers it. Returns whether the outstanding flip
    /// is confirmed once the batch is drained.
    pub fn absorb_events(&mut self, events: &Vec<PresentationEvent>) -> (resolved: bool)
        ensures
            final(self).state == run_events(old(self).state, events@),
            resolved == (run_events(old(self).state, events@) == SchedulerState::FlipConfirmed),
    {
        let n = events.len();
        let mut i: usize = 0;
        while i < n
            invariant
                i <= n,
                n == events@.len(),
                self.state == run_events(old(self).state, events@.take(i as int)),
            decreases n - i,
        {
            proof {
                lemma_run_events_take_step(old(self).state, events@, i as int);
            }
            self.on_event(events[i]);
            i = i + 1;
        }
        proof {
            assert(events@.take(n as int) =~= events@);
        }
        self.state == SchedulerState::FlipConfirmed
    }

    /// Acknowledge a confirmed flip: the scheduler returns to `Idle`
    /// and is ready for the next submission.
    pub fn acknowledge(&mut self)
        requires
            old(self).state == SchedulerState::FlipConfirmed,
        ensures
            final(self).state == SchedulerState::Idle,
    {
        self.state = SchedulerState::Idle;
    }
}

/// Absorbing one more event of a sequence steps the state by exactly
/// that event.
pub proof fn lemma_run_events_take_step(s: SchedulerState, events: Seq<PresentationEvent>, i: int)
    requires
        0 <= i < events.len(),
    ensures
        run_events(s, events.take(i + 1)) == step_state(run_events(s, events.take(i)), events[i]),
{
    assert(events.take(i + 1).drop_last() =~= events.take(i));
    assert(events.take(i + 1).last() == events[i]);
}

/// Only an awaited flip ever changes phase: a scheduler that is not in
/// `FlipRequested` absorbs any sequence of events unchanged.
pub proof fn lemma_run_events_stable(s: SchedulerState, events: Seq<PresentationEvent>)
    requires
        s != SchedulerState::FlipRequested,
    ensures
        run_events(s, events) == s,
    decreases events.len(),
{
    if events.len() > 0 {
        lemma_run_events_stable(s, events.drop_last());
    }
}

/// Background chatter is harmless: a sequence of events without a
/// completion leaves an awaited flip awaited, with no state change and
/// no error.
pub proof fn lemma_chatter_preserves_wait(events: Seq<PresentationEvent>)
    requires
        forall|j: int|
            0 <= j < events.len() ==> events[j] != PresentationEvent::PageFlipComplete,
    ensures
        run_events(SchedulerState::FlipRequested, events) == SchedulerState::FlipRequested,
    decreases events.len(),
{
    if events.len() > 0 {
        assert(forall|j: int|
            0 <= j < events.drop_last().len()
                ==> events.drop_last()[j] != PresentationEvent::PageFlipComplete);
        lemma_chatter_preserves_wait(events.drop_last());
    }
}

/// An awaited flip resolves exactly at the first completion event of
/// the delivered sequence: every prefix before it causes no state
/// change, and the completion event itself confirms the flip.
pub proof fn lemma_wait_resolves_at_first_completion(events: Seq<PresentationEvent>, k: int)
    requires
        0 <= k < events.len(),
        events[k] == PresentationEvent::PageFlipComplete,
        forall|j: int| 0 <= j < k ==> events[j] != PresentationEvent::PageFlipComplete,
    ensures
        forall|i: int|
            0 <= i <= k ==> run_events(SchedulerState::FlipRequested, events.take(i))
                == SchedulerState::FlipRequested,
        run_events(SchedulerState::FlipRequested, events.take(k + 1))
            == SchedulerState::FlipConfirmed,
{
    assert forall|i: int|
        0 <= i <= k implies run_events(SchedulerState::FlipRequested, events.take(i))
        == SchedulerState::FlipRequested by {
        assert(forall|j: int|
            0 <= j < events.take(i).len()
                ==> events.take(i)[j] != PresentationEvent::PageFlipComplete);
        lemma_chatter_preserves_wait(events.take(i));
    }
    lemma_run_events_take_step(SchedulerState::FlipRequested, events, k);
}

} // verus!
