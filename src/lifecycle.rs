use vstd::prelude::*;

verus! {

/// Where the device stands in the host-driven lifecycle.
#[derive(Clone, Copy, Debug, PartialEq, Eq, Structural)]
pub enum Lifecycle {
    /// Constructed, not yet initialized for a bus layout.
    Uninitialized,
    /// Initialized or reset; the smoothing state is at rest.
    Ready,
    /// At least one block has been processed since the last reset.
    Processing,
}

/// A reset or a block may only follow a successful initialization.
pub open spec fn is_initialized(s: Lifecycle) -> bool {
    s != Lifecycle::Uninitialized
}

impl Lifecycle {
    pub fn is_initialized(&self) -> (r: bool)
        ensures
            r == is_initialized(*self),
    {
        match self {
            Lifecycle::Uninitialized => false,
            _ => true,
        }
    }

    /// Enters `Ready` from any state.
    pub fn initialize(&mut self)
        ensures
            *final(self) == Lifecycle::Ready,
    {
        *self = Lifecycle::Ready;
    }

    /// Returns to `Ready` from `Ready` or `Processing`; refused, with no change, before
    /// initialization.
    pub fn reset(&mut self) -> (r: bool)
        ensures
            r == is_initialized(*old(self)),
            *final(self) == if r { Lifecycle::Ready } else { *old(self) },
    {
        if self.is_initialized() {
            *self = Lifecycle::Ready;
            true
        } else {
            false
        }
    }

    /// Enters `Processing` from `Ready` or `Processing`; refused, with no change, before
    /// initialization.
    pub fn begin_block(&mut self) -> (r: bool)
        ensures
            r == is_initialized(*old(self)),
            *final(self) == if r { Lifecycle::Processing } else { *old(self) },
    {
        if self.is_initialized() {
            *self = Lifecycle::Processing;
            true
        } else {
            false
        }
    }
}

} // verus!
