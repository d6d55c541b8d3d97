//! The frame loop driver: the decisions of one presentation cycle,
//! composed from the scheduler and the buffer lifecycle manager.
//!
//! One cycle runs: render the frame for the current index, acquire the
//! next render target, publish it, submit the flip, absorb events until
//! the flip is confirmed, then complete the frame — which retires the
//! previous front buffer and advances the frame counter. The caller
//! performs the device work of each step and hands the outcomes back;
//! the pipeline decides and keeps the books.
//!
//! The loop has no exit of its own: it is paced solely by the display's
//! refresh, and a completion event that never arrives stalls it
//! permanently, by design.

use vstd::prelude::*;

use crate::animation::{frame_angles, FrameAngles, MAX_ANIMATED_FRAME};
use crate::buffers::{spec_acquire, spec_cycle, spec_retire, BufferManager};
use crate::errors::PipelineError;
use crate::events::PresentationEvent;
use crate::scheduler::{run_events, Scheduler, SchedulerState};

verus! {

/// The state of the frame loop between steps.
pub struct FramePipeline {
    /// How many presentation cycles have completed; feeds the
    /// animation schedule. Starts at zero, increments exactly once per
    /// completed cycle, wraps at the integer boundary.
    pub frame: u64,
    /// The page-flip protocol state.
    pub scheduler: Scheduler,
    /// The swap-chain bookkeeping.
    pub buffers: BufferManager,
}

impl FramePipeline {
    /// The pipeline's composite invariant: the buffer books are
    /// well-formed, and an outstanding or confirmed flip always
    /// targets a staged render target.
    pub open spec fn wf(self) -> bool {
        &&& self.buffers.wf()
        &&& self.scheduler.state != SchedulerState::Idle ==> self.buffers.staged is Some
    }

    /// A pipeline before its first frame: nothing live, nothing
    /// outstanding, frame counter at zero.
    pub fn new() -> (p: FramePipeline)
        ensures
            p.frame == 0,
            p.scheduler.state == SchedulerState::Idle,
            p.buffers == (BufferManager { front: None, staged: None, next_id: 0 }),
            p.wf(),
    {
        FramePipeline { frame: 0, scheduler: Scheduler::new(), buffers: BufferManager::new() }
    }

    /// The rotation angles of the frame about to be rendered.
    pub fn begin_frame(&self) -> (r: FrameAngles)
        requires
            self.frame <= MAX_ANIMATED_FRAME,
        ensures
            r.x_centideg == 4500 + 25 * self.frame,
            r.y_centideg == 4500 - 50 * self.frame,
            r.z_centideg == 1000 + 15 * self.frame,
    {
        frame_angles(self.frame)
    }

    /// Acquire the next render target from the swap chain (`available`
    /// reports whether the chain produced a buffer). On success the
    /// fresh handle is staged; otherwise fails with `BufferUnavailable`
    /// and changes nothing.
    pub fn acquire_target(&mut self, available: bool) -> (r: Result<u64, PipelineError>)
        requires
            old(self).wf(),
            old(self).scheduler.state == SchedulerState::Idle,
            old(self).buffers.staged is None,
            old(self).buffers.next_id < u64::MAX,
        ensures
            final(self).wf(),
            final(self).frame == old(self).frame,
            final(self).scheduler.state == old(self).scheduler.state,
            !available ==> {
                &&& r == Err::<u64, PipelineError>(PipelineError::BufferUnavailable)
                &&& final(self).buffers == old(self).buffers
            },
            available ==> {
                &&& r == Ok::<u64, PipelineError>(old(self).buffers.next_id)
                &&& final(self).buffers == spec_acquire(old(self).buffers)
            },
    {
        self.buffers.acquire_next(available)
    }

    /// Register the staged render target with the display subsystem
    /// (`registration` reports the framebuffer handle the controller
    /// returned, or `None` where it rejected the buffer, which fails
    /// with `FramebufferCreationFailed`).
    pub fn publish_target(&self, target: u64, registration: Option<u64>) -> (r: Result<
        u64,
        PipelineError,
    >)
        requires
            self.buffers.staged == Some(target),
        ensures
            registration is Some ==> r == Ok::<u64, PipelineError>(registration.unwrap()),
            registration is None ==> r == Err::<u64, PipelineError>(
                PipelineError::FramebufferCreationFailed,
            ),
    {
        self.buffers.publish(target, registration)
    }

    /// Put the staged render target on screen without a flip: the
    /// one-time initial modeset, before the first cycle.
    pub fn install_first_target(&mut self) -> (retired: Option<u64>)
        requires
            old(self).wf(),
            old(self).scheduler.state == SchedulerState::Idle,
            old(self).buffers.staged is Some,
        ensures
            final(self).wf(),
            final(self).frame == old(self).frame,
            final(self).scheduler.state == old(self).scheduler.state,
            final(self).buffers == spec_retire(old(self).buffers),
            final(self).buffers.single_live(),
            retired == old(self).buffers.front,
    {
        self.buffers.retire_previous()
    }

    /// Record the submission of the page flip that puts the staged
    /// render target on screen. Succeeds exactly when no flip is
    /// outstanding; otherwise fails with `FlipRejected` and changes
    /// nothing — a second flip is never silently queued.
    pub fn submit_flip(&mut self) -> (r: Result<(), PipelineError>)
        requires
            old(self).wf(),
            old(self).buffers.staged is Some,
        ensures
            final(self).wf(),
            final(self).frame == old(self).frame,
            final(self).buffers == old(self).buffers,
            old(self).scheduler.state == SchedulerState::Idle ==> {
                &&& r is Ok
                &&& final(self).scheduler.state == SchedulerState::FlipRequested
            },
            old(self).scheduler.state != SchedulerState::Idle ==> {
                &&& r == Err::<(), PipelineError>(PipelineError::FlipRejected)
                &&& final(self).scheduler.state == old(self).scheduler.state
            },
    {
        self.scheduler.submit()
    }

    /// Absorb a batch of events from the display controller's event
    /// channel. Chatter is discarded without error; returns whether the
    /// outstanding flip is confirmed once the batch is drained.
    pub fn absorb_events(&mut self, events: &Vec<PresentationEvent>) -> (resolved: bool)
        requires
            old(self).wf(),
        ensures
            final(self).wf(),
            final(self).frame == old(self).frame,
            final(self).buffers == old(self).buffers,
            final(self).scheduler.state == run_events(old(self).scheduler.state, events@),
            resolved == (run_events(old(self).scheduler.state, events@)
                == SchedulerState::FlipConfirmed),
    {
        proof {
            if old(self).scheduler.state != SchedulerState::FlipRequested {
                crate::scheduler::lemma_run_events_stable(old(self).scheduler.state, events@);
            }
        }
        self.scheduler.absorb_events(events)
    }

    /// Complete the confirmed presentation cycle: the scheduler returns
    /// to `Idle`, the previous front buffer is retired (its handle is
    /// returned for release), the staged target becomes the front, and
    /// the frame counter advances, wrapping at the integer boundary.
    pub fn complete_frame(&mut self) -> (retired: Option<u64>)
        requires
            old(self).wf(),
            old(self).scheduler.state == SchedulerState::FlipConfirmed,
        ensures
            final(self).wf(),
            final(self).scheduler.state == SchedulerState::Idle,
            final(self).buffers == spec_retire(old(self).buffers),
            final(self).buffers.single_live(),
            retired == old(self).buffers.front,
            old(self).frame < u64::MAX ==> final(self).frame == old(self).frame + 1,
            old(self).frame == u64::MAX ==> final(self).frame == 0,
    {
        self.scheduler.acknowledge();
        let retired = self.buffers.retire_previous();
        self.frame = if self.frame == u64::MAX {
            0
        } else {
            self.frame + 1
        };
        retired
    }
}

/// What one completed presentation cycle — acquire, submit, confirm,
/// complete — does to the pipeline state, as the steps' contracts
/// compose: one more frame, the scheduler back at `Idle`, the buffers
/// through one acquire/retire turn.
pub open spec fn spec_frame_cycle(p: FramePipeline) -> FramePipeline {
    FramePipeline {
        frame: (p.frame + 1) as u64,
        scheduler: Scheduler { state: SchedulerState::Idle },
        buffers: spec_cycle(p.buffers),
    }
}

/// `n` completed presentation cycles.
pub open spec fn run_frame_cycles(p: FramePipeline, n: nat) -> FramePipeline
    decreases n,
{
    if n == 0 {
        p
    } else {
        spec_frame_cycle(run_frame_cycles(p, (n - 1) as nat))
    }
}

/// The steady state of the frame loop: any number of completed cycles
/// from a steady state advances the frame counter exactly once per
/// cycle, returns the scheduler to `Idle` each time, and keeps exactly
/// one render target live — the pipeline neither drifts nor leaks.
pub proof fn lemma_frame_loop_steady_state(p: FramePipeline, n: nat)
    requires
        p.wf(),
        p.scheduler.state == SchedulerState::Idle,
        p.buffers.single_live(),
        p.frame + n <= u64::MAX,
        p.buffers.next_id + n <= u64::MAX,
    ensures
        run_frame_cycles(p, n).wf(),
        run_frame_cycles(p, n).scheduler.state == SchedulerState::Idle,
        run_frame_cycles(p, n).buffers.single_live(),
        run_frame_cycles(p, n).frame == p.frame + n,
        run_frame_cycles(p, n).buffers == crate::buffers::run_cycles(p.buffers, n),
    decreases n,
{
    crate::buffers::lemma_cycles_leak_free(p.buffers, n);
    if n > 0 {
        lemma_frame_loop_steady_state(p, (n - 1) as nat);
        crate::buffers::lemma_cycles_leak_free(p.buffers, (n - 1) as nat);
    }
}

} // verus!
