use vstd::prelude::*;

verus! {

/// Everything that can go wrong while bootstrapping the renderer or while
/// reconfiguring the swapchain.
///
/// The startup errors are fatal: the host aborts and surfaces them to the
/// operator. A rejected swapchain configuration is transient: the frame loop
/// swallows it and retries on a later iteration.
#[derive(Clone, Copy, PartialEq, Eq, Structural, Debug)]
pub enum HalError {
    /// No physical device exposes a queue family that supports both graphics
    /// operations and presentation to the target surface.
    NoCapableDevice,
    /// The chosen physical device rejected the request to open a logical
    /// device with one queue from the capable family.
    DeviceOpenFailed,
    /// The surface rejected the derived swapchain configuration, e.g. while
    /// the window has zero area during a minimize.
    SwapchainCreateFailed,
    /// The device rejected the single-subpass render pass description.
    RenderPassCreateFailed,
    /// Creating one of the per-frame command pools, command buffers, fences
    /// or semaphores failed; allocation is all-or-nothing.
    FrameResourceAllocationFailed,
}

impl HalError {
    /// Fatal errors abort startup; the only transient error is a rejected
    /// swapchain configuration.
    pub open spec fn spec_is_fatal(self) -> bool {
        self != HalError::SwapchainCreateFailed
    }

    /// Whether the error must stop the process rather than be retried by the
    /// frame loop.
    pub fn is_fatal(&self) -> (r: bool)
        ensures
            r == self.spec_is_fatal(),
    {
        match self {
            HalError::SwapchainCreateFailed => false,
            _ => true,
        }
    }
}

} // verus!
