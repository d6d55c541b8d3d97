//! Selection rules of the display/mode provider: which connector to
//! drive and which of its modes to use.
//!
//! Enumerating connectors and modes is device work and happens outside;
//! the rules here decide on the reported plain values. The chosen mode
//! is fixed for the lifetime of the pipeline.

use vstd::prelude::*;

verus! {

/// A connector as enumeration reports it.
#[derive(Clone, Copy, Debug, PartialEq, Eq, Structural)]
pub struct ConnectorCandidate {
    /// Whether a display is attached.
    pub connected: bool,
    /// Reported physical width in millimetres.
    pub width_mm: u32,
    /// Reported physical height in millimetres.
    pub height_mm: u32,
}

/// A display mode as the mode provider reports it.
#[derive(Clone, Copy, Debug, PartialEq, Eq, Structural)]
pub struct DisplayMode {
    /// Horizontal resolution in pixels.
    pub width: u16,
    /// Vertical resolution in pixels.
    pub height: u16,
    /// Vertical refresh rate in Hz.
    pub vrefresh: u32,
}

/// A connector is worth driving when a display is attached and it
/// reports a non-degenerate physical size.
pub open spec fn usable(c: ConnectorCandidate) -> bool {
    c.connected && c.width_mm > 0 && c.height_mm > 0
}

/// The pixel area of a mode.
pub open spec fn pixel_area(m: DisplayMode) -> int {
    m.width * m.height
}

/// The strict preference order on modes: more pixels first, and among
/// modes of equal area a higher vertical refresh rate.
pub open spec fn preferred_over(a: DisplayMode, b: DisplayMode) -> bool {
    ||| pixel_area(a) > pixel_area(b)
    ||| (pixel_area(a) == pixel_area(b) && a.vrefresh > b.vrefresh)
}

/// Whether `a` is strictly preferred over `b` for scan-out.
pub fn mode_preferred_over(a: &DisplayMode, b: &DisplayMode) -> (r: bool)
    ensures
        r == preferred_over(*a, *b),
{
    proof {
        lemma_pixel_area_bounded(*a);
        lemma_pixel_area_bounded(*b);
    }
    let area_a = a.width as u64 * a.height as u64;
    let area_b = b.width as u64 * b.height as u64;
    if area_a != area_b {
        area_a > area_b
    } else {
        a.vrefresh > b.vrefresh
    }
}

/// The pixel area of a mode fits comfortably in a machine word.
proof fn lemma_pixel_area_bounded(m: DisplayMode)
    ensures
        0 <= pixel_area(m) < 0x1_0000_0000,
{
    assert(m.width as int * m.height as int <= 0xffff * 0xffff) by (nonlinear_arith)
        requires
            m.width <= 0xffff,
            m.height <= 0xffff,
    ;
    assert(m.width as int * m.height as int >= 0) by (nonlinear_arith);
}

/// The connector the pipeline drives: the first usable one, in the
/// order the device enumerates them. `None` exactly when no connector
/// is usable.
pub fn first_usable_connector(candidates: &Vec<ConnectorCandidate>) -> (r: Option<usize>)
    ensures
        r is None <==> (forall|j: int| 0 <= j < candidates@.len() ==> !usable(candidates@[j])),
        r is Some ==> {
            let i = r.unwrap() as int;
            &&& 0 <= i < candidates@.len()
            &&& usable(candidates@[i])
            &&& forall|j: int| 0 <= j < i ==> !usable(candidates@[j])
        },
{
    let n = candidates.len();
    let mut k: usize = 0;
    while k < n
        invariant
            k <= n,
            n == candidates@.len(),
            forall|j: int| 0 <= j < k ==> !usable(candidates@[j]),
        decreases n - k,
    {
        let c = &candidates[k];
        if c.connected && c.width_mm > 0 && c.height_mm > 0 {
            return Some(k);
        }
        k = k + 1;
    }
    None
}

/// The mode the pipeline drives: the one that sorts first under the
/// preference order, earlier entries winning exact ties — no reported
/// mode is preferred over it, and it is preferred over every mode
/// before it. `None` exactly when no mode was reported.
pub fn best_mode(modes: &Vec<DisplayMode>) -> (r: Option<usize>)
    ensures
        r is None <==> modes@.len() == 0,
        r is Some ==> {
            let i = r.unwrap() as int;
            &&& 0 <= i < modes@.len()
            &&& (forall|j: int| 0 <= j < modes@.len() ==> !preferred_over(modes@[j], modes@[i]))
            &&& (forall|j: int| 0 <= j < i ==> preferred_over(modes@[i], modes@[j]))
        },
{
    let n = modes.len();
    if n == 0 {
        return None;
    }
    let mut best: usize = 0;
    let mut k: usize = 1;
    while k < n
        invariant
            1 <= k <= n,
            best < k,
            n == modes@.len(),
            forall|j: int| 0 <= j < k ==> !preferred_over(modes@[j], modes@[best as int]),
            forall|j: int| 0 <= j < best ==> preferred_over(modes@[best as int], modes@[j]),
        decreases n - k,
    {
        if mode_preferred_over(&modes[k], &modes[best]) {
            best = k;
        }
        k = k + 1;
    }
    Some(best)
}

} // verus!
