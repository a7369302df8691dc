//! Projection parameters. Angles are in thousandths of a degree and clip
//! distances in millionths of a scene unit, so that every rule below is exact.

use vstd::prelude::*;
use crate::error::SetupError;

verus! {

/// Half a turn, in thousandths of a degree.
pub const HALF_TURN: u32 = 180_000;

/// Perspective projection parameters: aspect ratio, vertical field of view
/// and clip planes, plus a flag raised whenever the matrix built from them
/// is stale.
#[derive(Clone, Copy, Debug, PartialEq, Eq, Structural)]
pub struct CameraProjection {
    /// The aspect ratio is `aspect_width / aspect_height`, kept as the exact pair.
    pub aspect_width: u32,
    pub aspect_height: u32,
    /// Vertical field of view, in thousandths of a degree.
    pub fovy: u32,
    /// Near clip distance, in millionths of a scene unit.
    pub znear: u64,
    /// Far clip distance, in millionths of a scene unit.
    pub zfar: u64,
    /// The projection matrix must be rebuilt from these parameters.
    pub recompute: bool,
}

/// The field of view lies strictly between 0 and 180 degrees.
pub open spec fn valid_fovy(fovy: u32) -> bool {
    0 < fovy < HALF_TURN
}

/// The clip planes satisfy `0 < near < far`.
pub open spec fn valid_clip(znear: u64, zfar: u64) -> bool {
    0 < znear < zfar
}

impl CameraProjection {
    pub open spec fn wf(self) -> bool {
        &&& self.aspect_width > 0
        &&& self.aspect_height > 0
        &&& valid_fovy(self.fovy)
        &&& valid_clip(self.znear, self.zfar)
    }

    /// The aspect ratio equals `w / h`, compared exactly.
    pub open spec fn has_aspect(self, w: int, h: int) -> bool {
        self.aspect_width * h == w * self.aspect_height
    }

    /// Builds the projection for a `width` x `height` surface.
    pub fn new(width: u32, height: u32, fovy: u32, znear: u64, zfar: u64) -> (r: Result<
        CameraProjection,
        SetupError,
    >)
        ensures
            r == Err::<CameraProjection, SetupError>(SetupError::ZeroSurfaceSize) <==> (width == 0
                || height == 0),
            r == Err::<CameraProjection, SetupError>(SetupError::InvalidFieldOfView) <==> (width > 0
                && height > 0 && !valid_fovy(fovy)),
            r == Err::<CameraProjection, SetupError>(SetupError::InvalidClipPlanes) <==> (width > 0
                && height > 0 && valid_fovy(fovy) && !valid_clip(znear, zfar)),
            r is Ok <==> width > 0 && height > 0 && valid_fovy(fovy) && valid_clip(znear, zfar),
            r matches Ok(p) ==> {
                &&& p.wf()
                &&& p.aspect_width == width
                &&& p.aspect_height == height
                &&& p.fovy == fovy
                &&& p.znear == znear
                &&& p.zfar == zfar
                &&& p.recompute
            },
    {
        if width == 0 || height == 0 {
            return Err(SetupError::ZeroSurfaceSize);
        }
        if fovy == 0 || fovy >= HALF_TURN {
            return Err(SetupError::InvalidFieldOfView);
        }
        if znear == 0 || znear >= zfar {
            return Err(SetupError::InvalidClipPlanes);
        }
        Ok(
            CameraProjection {
                aspect_width: width,
                aspect_height: height,
                fovy,
                znear,
                zfar,
                recompute: true,
            },
        )
    }

    /// Takes the aspect ratio from a new surface size and marks the matrix
    /// stale; nothing else changes. A size with a zero dimension is ignored.
    /// Returns whether the size was applied.
    pub fn resize(&mut self, width: u32, height: u32) -> (applied: bool)
        ensures
            applied == (width > 0 && height > 0),
            applied ==> *final(self) == (CameraProjection {
                aspect_width: width,
                aspect_height: height,
                recompute: true,
                ..*old(self)
            }),
            !applied ==> *final(self) == *old(self),
            old(self).wf() ==> final(self).wf(),
    {
        if width > 0 && height > 0 {
            self.aspect_width = width;
            self.aspect_height = height;
            self.recompute = true;
            true
        } else {
            false
        }
    }

    /// Whether the matrix must be rebuilt.
    pub fn needs_recompute(&self) -> (r: bool)
        ensures
            r == self.recompute,
    {
        self.recompute
    }

    /// Records that the matrix has been rebuilt from the current parameters.
    pub fn mark_recomputed(&mut self)
        ensures
            *final(self) == (CameraProjection { recompute: false, ..*old(self) }),
    {
        self.recompute = false;
    }
}

} // verus!
