//! The graphics bundle: the resources needed to render a frame, versioned by
//! the suspend counter under which they were built.

use vstd::prelude::*;

verus! {

/// The current graphics state. The library never looks inside the four
/// resources; it only carries them and hands them out.
pub struct Wgpu<D, Q, A, S> {
    /// The current device.
    pub device: D,
    /// The current command queue.
    pub queue: Q,
    /// The current adapter.
    pub adapter: A,
    /// The current presentable surface.
    pub surface: S,
    /// How many times the graphics state had been suspended when this bundle
    /// was requested. Two bundles with different counters are different
    /// instantiations.
    pub suspend_count: u64,
}

impl<D, Q, A, S> Wgpu<D, Q, A, S> {
    /// Assembles a bundle from its finished parts. Nothing but a complete
    /// bundle can be made.
    pub fn new(device: D, queue: Q, adapter: A, surface: S, suspend_count: u64) -> (wgpu: Self)
        ensures
            wgpu == (Wgpu { device, queue, adapter, surface, suspend_count }),
    {
        Wgpu { device, queue, adapter, surface, suspend_count }
    }
}

} // verus!
