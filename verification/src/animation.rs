//! The per-frame animation schedule: which rotation angles the scene
//! gets at a given frame index.
//!
//! The schedule is stated exactly, in hundredths of a degree, so the
//! angles are plain integers; the renderer divides by one hundred when
//! it hands them to its trigonometry.

use vstd::prelude::*;

verus! {

/// The largest frame index the schedule is stated for; beyond it the
/// centidegree angles would no longer fit the machine word. At one
/// frame per display refresh this bound is never reached.
pub const MAX_ANIMATED_FRAME: u64 = 0x0100_0000_0000_0000;

/// The rotation angles of one frame, in hundredths of a degree, about
/// the x, y and z axes. The angles grow without normalization, as the
/// frame counter does.
#[derive(Clone, Copy, Debug, PartialEq, Eq, Structural)]
pub struct FrameAngles {
    /// Rotation about the x axis: 45 degrees plus a quarter degree per frame.
    pub x_centideg: i64,
    /// Rotation about the y axis: 45 degrees minus half a degree per frame.
    pub y_centideg: i64,
    /// Rotation about the z axis: 10 degrees plus 0.15 degrees per frame.
    pub z_centideg: i64,
}

/// The rotation schedule of frame `frame`.
pub fn frame_angles(frame: u64) -> (r: FrameAngles)
    requires
        frame <= MAX_ANIMATED_FRAME,
    ensures
        r.x_centideg == 4500 + 25 * frame,
        r.y_centideg == 4500 - 50 * frame,
        r.z_centideg == 1000 + 15 * frame,
{
    let f = frame as i64;
    FrameAngles {
        x_centideg: 4500 + 25 * f,
        y_centideg: 4500 - 50 * f,
        z_centideg: 1000 + 15 * f,
    }
}

} // verus!
