//! A verified model of a hardware-raytracing frame engine.
//!
//! The library captures the logic of the engine — the typed buffer
//! allocator, the bottom/top-level acceleration-structure build and refit
//! protocol, the shader-table layout, the presentation state machine and
//! the per-frame fence discipline — over plain values.  Every GPU command
//! the engine issues is described as data (`GpuCommand`), so the exact
//! per-frame command sequence is stated in contracts and proved.  A native
//! front end owns the real device and replays the described work against it.

pub mod commands;
pub mod device_interface;
pub mod frame;
pub mod pipeline;
pub mod resource;
pub mod scene;
pub mod surface;
pub mod window_handle;
