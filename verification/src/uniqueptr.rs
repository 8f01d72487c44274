//! A uniquely owned heap value.

use vstd::prelude::*;

verus! {

/// A value kept on the heap, owned by this handle alone.
pub struct UniquePtr<T> {
    inner: Box<T>,
}

impl<T> UniquePtr<T> {
    /// The value held.
    pub closed spec fn value(&self) -> T {
        *self.inner
    }

    /// Moves `val` to the heap.
    pub fn new(val: T) -> (p: Self)
        ensures
            p.value() == val,
    {
        UniquePtr { inner: Box::new(val) }
    }

    /// Takes over a value already on the heap.
    pub fn from_box(b: Box<T>) -> (p: Self)
        ensures
            p.value() == *b,
    {
        UniquePtr { inner: b }
    }

    /// Borrows the value held.
    pub fn deref(&self) -> (r: &T)
        ensures
            *r == self.value(),
    {
        &*self.inner
    }

    /// Borrows the value held for changing it.
    pub fn deref_mut(&mut self) -> (r: &mut T)
        ensures
            *r == old(self).value(),
            final(self).value() == *final(r),
    {
        &mut *self.inner
    }
}

} // verus!
