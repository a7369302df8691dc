//! Renderer core of a small instanced 3D scene: surface and depth-target
//! lifecycle, camera projection parameters, the instance grid, geometry
//! index packing, vertex layouts, input handling and the per-frame
//! orchestration that turns an acquisition outcome into render commands.
//!
//! Everything here works on plain values; the GPU handles themselves are
//! owned by the caller, which executes the plans this crate produces.

pub mod camera;
pub mod error;
pub mod frame;
pub mod geometry;
pub mod input;
pub mod instance;
pub mod pass;
pub mod pipeline;
pub mod projection;
pub mod state;
pub mod surface;
pub mod vertex;
