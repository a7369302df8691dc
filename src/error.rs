//! Setup errors: conditions that must stop construction before any frame is drawn.

use vstd::prelude::*;

verus! {

/// A programmer or setup error, reported at construction time.
#[derive(Clone, Copy, Debug, PartialEq, Eq, Structural)]
pub enum SetupError {
    /// The surface reported no supported texture format.
    NoSurfaceFormat,
    /// A surface or projection was given a zero width or height.
    ZeroSurfaceSize,
    /// The vertical field of view is not strictly between 0 and 180 degrees.
    InvalidFieldOfView,
    /// The clip planes do not satisfy `0 < near < far`.
    InvalidClipPlanes,
    /// The instance grid has no row.
    EmptyInstanceGrid,
    /// The instance grid has more instances than one draw call can address.
    InstanceGridTooLarge,
    /// The instance spacing is zero.
    ZeroInstanceSpacing,
    /// An index refers past the end of the vertex array.
    IndexOutOfRange,
    /// The index array is longer than one draw call can address.
    TooManyIndices,
    /// A mesh refers to a material that does not exist.
    MissingMaterial,
}

} // verus!
