//! The buffer lifecycle manager: bookkeeping for the swap chain.
//!
//! Exactly one render target is on screen ("front") in the steady
//! state; while a frame is in flight a second one ("staged") is being
//! prepared, so at most two are live at once. Handles are logical
//! slot ids minted here; the caller keeps the mapping from id to the
//! actual buffer object and releases a buffer only when its id comes
//! back from `retire_previous` — releasing a buffer still scanned out
//! corrupts the display.
//!
//! The manager performs no device call: locking a buffer from the swap
//! chain and registering it with the display controller happen outside,
//! and their outcomes come in as plain values.

use vstd::prelude::*;

use crate::errors::PipelineError;

verus! {

/// The swap-chain bookkeeping state.
#[derive(Clone, Copy, Debug, PartialEq, Eq, Structural)]
pub struct BufferManager {
    /// The render target currently scanned out, if any.
    pub front: Option<u64>,
    /// The render target being prepared for the next flip, if any.
    pub staged: Option<u64>,
    /// The next handle to mint; all live handles are below it.
    pub next_id: u64,
}

impl BufferManager {
    /// The handles of the render targets that are currently live.
    pub open spec fn live(self) -> Set<u64> {
        Set::new(
            |h: u64| self.front == Some(h) || self.staged == Some(h),
        )
    }

    /// How many render targets are live.
    pub open spec fn live_count(self) -> nat {
        (if self.front is Some { 1nat } else { 0nat })
            + (if self.staged is Some { 1nat } else { 0nat })
    }

    /// Well-formedness: live handles were minted here and the two
    /// slots never alias.
    pub open spec fn wf(self) -> bool {
        &&& self.front is Some ==> self.front.unwrap() < self.next_id
        &&& self.staged is Some ==> self.staged.unwrap() < self.next_id
        &&& (self.front is Some && self.staged is Some)
            ==> self.front.unwrap() != self.staged.unwrap()
    }

    /// The steady state between frames: exactly the front buffer is
    /// live, nothing is staged.
    pub open spec fn single_live(self) -> bool {
        self.front is Some && self.staged is None
    }

    /// A manager with no live render target.
    pub fn new() -> (m: BufferManager)
        ensures
            m == (BufferManager { front: None, staged: None, next_id: 0 }),
            m.wf(),
            m.live_count() == 0,
    {
        BufferManager { front: None, staged: None, next_id: 0 }
    }

    /// Acquire the next render target from the swap chain.
    ///
    /// The swap chain itself is outside: the caller blocks on it and
    /// reports with `available` whether it produced a buffer. On
    /// success the freshly minted handle is staged; when the chain
    /// cannot produce a buffer the acquisition fails with
    /// `BufferUnavailable` and nothing changes.
    pub fn acquire_next(&mut self, available: bool) -> (r: Result<u64, PipelineError>)
        requires
            old(self).staged is None,
            old(self).next_id < u64::MAX,
        ensures
            !available ==> {
                &&& r == Err::<u64, PipelineError>(PipelineError::BufferUnavailable)
                &&& *final(self) == *old(self)
            },
            available ==> {
                &&& r == Ok::<u64, PipelineError>(old(self).next_id)
                &&& *final(self) == spec_acquire(*old(self))
            },
            available && old(self).wf() ==> !old(self).live().contains(old(self).next_id),
            old(self).wf() ==> final(self).wf(),
    {
        if available {
            let id = self.next_id;
            self.staged = Some(id);
            self.next_id = self.next_id + 1;
            Ok(id)
        } else {
            Err(PipelineError::BufferUnavailable)
        }
    }

    /// Register the staged render target with the display subsystem as
    /// a displayable framebuffer.
    ///
    /// The registration is the display controller's call; its outcome
    /// comes in as `registration`: the framebuffer handle it returned,
    /// or `None` where it rejected the buffer, which fails with
    /// `FramebufferCreationFailed`.
    pub fn publish(&self, target: u64, registration: Option<u64>) -> (r: Result<
        u64,
        PipelineError,
    >)
        requires
            self.staged == Some(target),
        ensures
            registration is Some ==> r == Ok::<u64, PipelineError>(registration.unwrap()),
            registration is None ==> r == Err::<u64, PipelineError>(
                PipelineError::FramebufferCreationFailed,
            ),
    {
        match registration {
            Some(fb) => Ok(fb),
            None => Err(PipelineError::FramebufferCreationFailed),
        }
    }

    /// Retire the previous front buffer and advance the staged one to
    /// the front.
    ///
    /// Must only be called once the flip of the staged target is
    /// confirmed. Returns the handle of the retired buffer so the
    /// caller can release it back to the pool; afterwards exactly the
    /// new front buffer is live.
    pub fn retire_previous(&mut self) -> (retired: Option<u64>)
        requires
            old(self).staged is Some,
        ensures
            *final(self) == spec_retire(*old(self)),
            retired == old(self).front,
            final(self).single_live(),
            final(self).live_count() == 1,
            old(self).wf() ==> final(self).wf(),
    {
        let retired = self.front;
        self.front = self.staged;
        self.staged = None;
        retired
    }
}

/// Staging a fresh handle: what a successful `acquire_next` does.
pub open spec fn spec_acquire(m: BufferManager) -> BufferManager {
    BufferManager { front: m.front, staged: Some(m.next_id), next_id: (m.next_id + 1) as u64 }
}

/// Advancing the staged handle to the front: what `retire_previous`
/// does.
pub open spec fn spec_retire(m: BufferManager) -> BufferManager {
    BufferManager { front: m.staged, staged: None, next_id: m.next_id }
}

/// One full publish/retire cycle of the frame loop.
pub open spec fn spec_cycle(m: BufferManager) -> BufferManager {
    spec_retire(spec_acquire(m))
}

/// `n` successive publish/retire cycles.
pub open spec fn run_cycles(m: BufferManager, n: nat) -> BufferManager
    decreases n,
{
    if n == 0 {
        m
    } else {
        spec_cycle(run_cycles(m, (n - 1) as nat))
    }
}

/// Only two slots exist, so at most two render targets are ever live.
pub proof fn lemma_at_most_two_live(m: BufferManager)
    ensures
        m.live_count() <= 2,
{
}

/// No handle leaks across frames: starting from a steady state, any
/// number of publish/retire cycles ends in a steady state again, with
/// exactly one render target live — the current front buffer.
pub proof fn lemma_cycles_leak_free(m: BufferManager, n: nat)
    requires
        m.wf(),
        m.single_live(),
        m.next_id + n <= u64::MAX,
    ensures
        run_cycles(m, n).wf(),
        run_cycles(m, n).single_live(),
        run_cycles(m, n).live_count() == 1,
        run_cycles(m, n).live() =~= set![run_cycles(m, n).front.unwrap()],
        run_cycles(m, n).next_id == m.next_id + n,
    decreases n,
{
    if n > 0 {
        lemma_cycles_leak_free(m, (n - 1) as nat);
        let prev = run_cycles(m, (n - 1) as nat);
        assert(prev.next_id < u64::MAX);
        assert(spec_cycle(prev).next_id == prev.next_id + 1);
    }
}

} // verus!
