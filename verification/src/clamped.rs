//! A marker around byte buffers that the host sees as a `Uint8ClampedArray`.

use vstd::prelude::*;

verus! {

/// A wrapper around a slice or vector of bytes that is handed to the host as a
/// `Uint8ClampedArray`; it dereferences to what it wraps.
#[derive(Copy, Clone, PartialEq, Debug, Eq)]
pub struct Clamped<T>(pub T);

impl<T> core::ops::Deref for Clamped<T> {
    type Target = T;

    fn deref(&self) -> (r: &T)
        ensures
            *r == self.0,
    {
        &self.0
    }
}

impl<T> Clamped<T> {
    /// Mutable access to what is wrapped.
    pub fn deref_mut(&mut self) -> (r: &mut T)
        ensures
            *r == old(self).0,
            final(self).0 == *final(r),
    {
        &mut self.0
    }
}

} // verus!
