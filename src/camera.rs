//! Camera orientation as yaw and pitch, in thousandths of a degree.

use vstd::prelude::*;

verus! {

/// A full turn, in thousandths of a degree.
pub const FULL_TURN: i64 = 360_000;

/// The largest pitch magnitude: 89 degrees, short of looking straight up or
/// down, where the view direction would be parallel to the up vector.
pub const SAFE_PITCH: i64 = 89_000;

/// Which way the camera looks.
#[derive(Clone, Copy, Debug, PartialEq, Eq, Structural)]
pub struct Orientation {
    /// Rotation about the vertical axis, in `[0, FULL_TURN)`.
    pub yaw: i64,
    /// Elevation of the view direction, in `[-SAFE_PITCH, SAFE_PITCH]`.
    pub pitch: i64,
}

/// `p` held within `[-SAFE_PITCH, SAFE_PITCH]`.
pub open spec fn clamp_pitch(p: int) -> int {
    if p > SAFE_PITCH {
        SAFE_PITCH as int
    } else if p < -SAFE_PITCH {
        -SAFE_PITCH
    } else {
        p
    }
}

/// `y` brought into `[0, FULL_TURN)`.
pub open spec fn wrap_yaw(y: int) -> int {
    y % (FULL_TURN as int)
}

impl Orientation {
    pub open spec fn wf(self) -> bool {
        &&& 0 <= self.yaw < FULL_TURN
        &&& -SAFE_PITCH <= self.pitch <= SAFE_PITCH
    }

    /// An orientation from any yaw and pitch: the yaw is wrapped to one turn
    /// and the pitch clamped.
    pub fn new(yaw: i32, pitch: i32) -> (r: Orientation)
        ensures
            r.wf(),
            r.yaw == wrap_yaw(yaw as int),
            r.pitch == clamp_pitch(pitch as int),
    {
        let r = Orientation { yaw: wrap(yaw as i64), pitch: clamp(pitch as i64) };
        r
    }

    /// Applies yaw and pitch deltas; the pitch is clamped as it is applied,
    /// so the view direction never becomes vertical.
    pub fn rotate(&mut self, dyaw: i32, dpitch: i32)
        requires
            old(self).wf(),
        ensures
            final(self).wf(),
            final(self).yaw == wrap_yaw(old(self).yaw + dyaw),
            final(self).pitch == clamp_pitch(old(self).pitch + dpitch),
    {
        self.yaw = wrap(self.yaw + dyaw as i64);
        self.pitch = clamp(self.pitch + dpitch as i64);
    }
}

fn wrap(y: i64) -> (r: i64)
    ensures
        r == wrap_yaw(y as int),
        0 <= r < FULL_TURN,
{
    let m = y % FULL_TURN;
    if m < 0 {
        m + FULL_TURN
    } else {
        m
    }
}

fn clamp(p: i64) -> (r: i64)
    ensures
        r == clamp_pitch(p as int),
{
    if p > SAFE_PITCH {
        SAFE_PITCH
    } else if p < -SAFE_PITCH {
        -SAFE_PITCH
    } else {
        p
    }
}

} // verus!
