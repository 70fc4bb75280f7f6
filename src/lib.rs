//! The state behind an immediate-mode 2D canvas: transform stack, path
//! recording, stroke and fill colours, and the device-to-NDC matrix that a
//! draw call carries to the GPU.
//!
//! Everything here is generic over the colour, transform and point types, so
//! the host picks its own numeric representation and does the tessellation
//! and GPU work; this crate decides what each draw call consists of.

pub mod canvas;
pub mod device;
pub mod path;
pub mod transform_stack;
