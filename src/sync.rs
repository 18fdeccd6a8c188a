//! The per-frame synchronization objects and what the CPU knows of each fence.

use vstd::prelude::*;

verus! {

/// Number of frames whose GPU work may overlap.
pub const MAX_FRAMES_IN_FLIGHT: usize = 3;

/// The synchronization objects owned by one in-flight frame slot.
#[derive(Clone, Copy, Debug, PartialEq, Eq, Structural)]
pub struct FrameSlot {
    /// Signaled by the GPU once the acquired image is ready to be drawn to.
    pub image_available: u64,
    /// Signaled by the GPU once drawing is done and the image may be presented.
    pub render_finished: u64,
    /// Signaled by the GPU once the slot's submission has fully executed.
    pub in_flight: u64,
}

/// What the CPU knows about a fence.
#[derive(Clone, Copy, Debug, PartialEq, Eq, Structural)]
pub enum FenceState {
    /// Known to be signaled: created signaled, waited on, or the device went idle.
    Signaled,
    /// Reset to unsignaled and not yet handed to a submission.
    Reset,
    /// Handed to a submission that may still be executing.
    Pending,
}

} // verus!
