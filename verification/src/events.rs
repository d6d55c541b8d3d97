//! Events delivered by the display controller in response to a
//! submitted page-flip request.

use vstd::prelude::*;

verus! {

/// One event read from the display controller's event channel.
///
/// While a flip is awaited, `VerticalBlank` and `Unrecognized` are
/// expected background chatter and are discarded, never an error; only
/// `PageFlipComplete` resolves the wait.
#[derive(Clone, Copy, Debug, PartialEq, Eq, Structural)]
pub enum PresentationEvent {
    /// The display entered a vertical blanking interval.
    VerticalBlank,
    /// The outstanding page flip completed and the new buffer is
    /// scanned out.
    PageFlipComplete,
    /// An event the pipeline does not recognize.
    Unrecognized,
}

} // verus!
