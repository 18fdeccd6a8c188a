//! Frame pacing and synchronization logic for a real-time renderer that
//! drives a low-level graphics API: swapchain choices, per-frame sync slots,
//! the frame state machine, the bookkeeping of GPU object lifetimes, and the
//! smaller decisions around them (device and queue selection, memory types,
//! depth formats, mip chains, layout barriers, mesh indexing).
//!
//! GPU objects appear here as raw 64-bit handles; performing the API calls is
//! left to the caller, which executes the actions this library decides on.

pub mod swapchain;
pub mod sync;
pub mod scheduler;
pub mod lifetime;
pub mod device;
pub mod image;
pub mod model;
