//! The fatal error taxonomy of the presentation pipeline.
//!
//! Every variant is fatal by design: the frame loop stops issuing flips
//! and the process exits. There is no retry or degraded mode.

use vstd::prelude::*;

verus! {

/// A fatal condition of the presentation pipeline.
#[derive(Clone, Copy, Debug, PartialEq, Eq, Structural)]
pub enum PipelineError {
    /// The swap chain could not supply a render target
    /// (device lost or disconnected).
    BufferUnavailable,
    /// The display controller rejected a buffer registration.
    FramebufferCreationFailed,
    /// The display controller refused a submitted flip, or a flip was
    /// submitted while another was still outstanding.
    FlipRejected,
}

} // verus!
