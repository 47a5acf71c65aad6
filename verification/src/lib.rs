//! A small 3D-engine core: fixed-point transform math, a flat named scene
//! graph, and the per-frame rotation state machine that drives a spinning
//! cube from keyboard input with an idle auto-rotate fallback.
//!
//! All quantities are held in exact fixed-point units (see [`fixed`]), so
//! every arithmetic step is stated and proved exactly; the floating-point
//! conversion for the GPU happens outside this crate.

pub mod fixed;
pub mod frame;
pub mod math;
pub mod scene;
