//! Release of an exported Wayland handle, tied to the lifetime of its owner.
use vstd::prelude::*;

verus! {

/// A window whose exported handle can be withdrawn from the compositor.
pub trait ReleaseHandle {
    /// Tells the compositor that the handle exported for this window is no
    /// longer needed. It is called from a destructor, so an implementation
    /// must swallow its failures and never panic. The default does nothing,
    /// for a window that registered nothing.
    fn unexport_handle(&self)
        opens_invariants none
        no_unwind
    {
    }
}

/// Holds the window whose handle was exported, and releases that handle once:
/// on an explicit [`ExportGuard::release`], or else when the guard is dropped.
pub struct ExportGuard<W: ReleaseHandle> {
    window: W,
    released: bool,
}

impl<W: ReleaseHandle> ExportGuard<W> {
    /// The window whose handle was exported.
    pub closed spec fn window(&self) -> W {
        self.window
    }

    /// Whether a release is still owed.
    pub closed spec fn is_armed(&self) -> bool {
        !self.released
    }

    /// A guard that owes one release of the handle exported for `window`.
    pub fn new(window: W) -> (r: Self)
        ensures
            r.window() == window,
            r.is_armed(),
    {
        ExportGuard { window, released: false }
    }

    /// Whether a release is still owed.
    pub fn armed(&self) -> (r: bool)
        ensures
            r == self.is_armed(),
    {
        !self.released
    }

    /// Releases the handle if that is still owed, and reports whether it did.
    /// A second call does nothing and returns `false`.
    pub fn release(&mut self) -> (r: bool)
        ensures
            r == old(self).is_armed(),
            !final(self).is_armed(),
            final(self).window() == old(self).window(),
        opens_invariants none
        no_unwind
    {
        if self.released {
            false
        } else {
            self.window.unexport_handle();
            self.released = true;
            true
        }
    }
}

impl<W: ReleaseHandle> Drop for ExportGuard<W> {
    fn drop(&mut self)
        opens_invariants none
        no_unwind
    {
        self.release();
    }
}

} // verus!
