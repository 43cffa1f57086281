//! The GPU layer's error taxonomy and the recovery policy applied to it.

use vstd::prelude::*;

verus! {

/// The failures of the GPU layer that the frame orchestration distinguishes.
#[derive(Clone, Copy, Debug, PartialEq, Eq, Structural)]
pub enum GpuError {
    /// No physical device offers one queue family with graphics, compute and
    /// presentation to the surface.
    NoSuitableDevice,
    /// The swapchain no longer matches the surface and has to be rebuilt.
    SwapchainOutOfDate,
    /// The swapchain still works but no longer matches the surface exactly.
    SwapchainSuboptimal,
    DeviceLost,
    /// A host-side wait (image acquisition, timeline wait) ran out of time.
    Timeout,
    /// Creating a device-level object failed, or produced an object that
    /// breaks the engine's invariants.
    CreationFailure,
}

/// What the render loop does after a failed frame.
#[derive(Clone, Copy, Debug, PartialEq, Eq, Structural)]
pub enum Recovery {
    /// Rebuild the swapchain and skip the frame.
    RebuildSwapchain,
    /// Tear down and report the error.
    Fatal,
}

/// How many swapchain rebuilds in a row a recoverable error may cause before
/// it is escalated.
pub const MAX_CONSECUTIVE_REBUILDS: u32 = 1;

/// Errors that a swapchain rebuild can cure.
pub open spec fn is_recoverable(e: GpuError) -> bool {
    e == GpuError::SwapchainOutOfDate || e == GpuError::SwapchainSuboptimal
}

pub open spec fn recovery_spec(error: GpuError, rebuilds_in_a_row: u32) -> Recovery {
    if is_recoverable(error) && rebuilds_in_a_row < MAX_CONSECUTIVE_REBUILDS {
        Recovery::RebuildSwapchain
    } else {
        Recovery::Fatal
    }
}

/// The recovery policy: an out-of-date or suboptimal swapchain is rebuilt,
/// once in a row; anything else, or the same condition right after a
/// rebuild, is fatal.
pub fn recovery_for(error: GpuError, rebuilds_in_a_row: u32) -> (r: Recovery)
    ensures
        r == recovery_spec(error, rebuilds_in_a_row),
{
    let recoverable = match error {
        GpuError::SwapchainOutOfDate | GpuError::SwapchainSuboptimal => true,
        _ => false,
    };
    if recoverable && rebuilds_in_a_row < MAX_CONSECUTIVE_REBUILDS {
        Recovery::RebuildSwapchain
    } else {
        Recovery::Fatal
    }
}

/// Counts the swapchain rebuilds since the last frame that went through, and
/// applies the recovery policy with that count.
pub struct RecoveryTracker {
    rebuilds_in_a_row: u32,
}

impl RecoveryTracker {
    pub closed spec fn rebuilds(&self) -> u32 {
        self.rebuilds_in_a_row
    }

    pub fn new() -> (r: Self)
        ensures
            r.rebuilds() == 0,
    {
        RecoveryTracker { rebuilds_in_a_row: 0 }
    }

    /// A frame went through: the count starts over.
    pub fn on_success(&mut self)
        ensures
            final(self).rebuilds() == 0,
    {
        self.rebuilds_in_a_row = 0;
    }

    /// A frame failed with `error`: what to do, counting a rebuild.
    pub fn on_failure(&mut self, error: GpuError) -> (r: Recovery)
        ensures
            r == recovery_spec(error, old(self).rebuilds()),
            final(self).rebuilds() == if r == Recovery::RebuildSwapchain {
                old(self).rebuilds() + 1
            } else {
                old(self).rebuilds() as int
            },
    {
        let r = recovery_for(error, self.rebuilds_in_a_row);
        if let Recovery::RebuildSwapchain = r {
            self.rebuilds_in_a_row = self.rebuilds_in_a_row + 1;
        }
        r
    }
}

} // verus!
