//! Surface configuration and the depth target that follows the surface's size.

use vstd::prelude::*;
use crate::error::SetupError;

verus! {

/// How presented images are queued.
#[derive(Clone, Copy, Debug, PartialEq, Eq, Structural)]
pub enum PresentMode {
    /// Wait for vertical blank: one image per refresh.
    Fifo,
    /// Replace the queued image; do not tear.
    Mailbox,
    /// Present at once; may tear.
    Immediate,
}

/// The negotiated configuration of a presentation surface, over the
/// caller's texture-format type `F`.
#[derive(Clone, Copy, Debug)]
pub struct SurfaceConfig<F> {
    pub width: u32,
    pub height: u32,
    pub format: F,
    pub present_mode: PresentMode,
}

impl<F: Copy> SurfaceConfig<F> {
    /// A configured surface has a positive size.
    pub open spec fn wf(self) -> bool {
        self.width > 0 && self.height > 0
    }

    /// Applies a new size; a size with a zero dimension leaves the
    /// configuration as it was. Returns whether the size was applied.
    pub fn resize(&mut self, width: u32, height: u32) -> (applied: bool)
        ensures
            applied == (width > 0 && height > 0),
            applied ==> final(self).width == width && final(self).height == height,
            !applied ==> final(self).width == old(self).width && final(self).height == old(
                self,
            ).height,
            final(self).format == old(self).format,
            final(self).present_mode == old(self).present_mode,
            old(self).wf() ==> final(self).wf(),
    {
        if width > 0 && height > 0 {
            self.width = width;
            self.height = height;
            true
        } else {
            false
        }
    }
}

/// Chooses the surface configuration: the first format the surface supports,
/// FIFO presentation, and the given size.
pub fn configure_surface<F: Copy>(supported: &Vec<F>, width: u32, height: u32) -> (r: Result<
    SurfaceConfig<F>,
    SetupError,
>)
    ensures
        r matches Err(e) ==> e == SetupError::NoSurfaceFormat || e == SetupError::ZeroSurfaceSize,
        r == Err::<SurfaceConfig<F>, SetupError>(SetupError::NoSurfaceFormat) <==> supported@.len()
            == 0,
        r == Err::<SurfaceConfig<F>, SetupError>(SetupError::ZeroSurfaceSize) <==> supported@.len()
            > 0 && (width == 0 || height == 0),
        r matches Ok(c) ==> {
            &&& c.format == supported@[0]
            &&& c.width == width
            &&& c.height == height
            &&& c.present_mode == PresentMode::Fifo
            &&& c.wf()
        },
{
    if supported.len() == 0 {
        return Err(SetupError::NoSurfaceFormat);
    }
    if width == 0 || height == 0 {
        return Err(SetupError::ZeroSurfaceSize);
    }
    Ok(SurfaceConfig { width, height, format: supported[0], present_mode: PresentMode::Fifo })
}

/// The depth attachment's size; it is recreated whenever the surface's size changes.
#[derive(Clone, Copy, Debug, PartialEq, Eq, Structural)]
pub struct DepthTarget {
    pub width: u32,
    pub height: u32,
}

impl DepthTarget {
    /// The depth target matching a surface configuration.
    pub fn for_surface<F: Copy>(config: &SurfaceConfig<F>) -> (r: DepthTarget)
        ensures
            r.width == config.width,
            r.height == config.height,
    {
        DepthTarget { width: config.width, height: config.height }
    }

    /// The depth target has the surface's current size.
    pub open spec fn matches<F>(self, config: SurfaceConfig<F>) -> bool {
        self.width == config.width && self.height == config.height
    }
}

} // verus!
